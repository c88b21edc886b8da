# rukey

Configuration, keymap logic and flashing tool of the rukey keyboard, with the
logic proved correct by Verus.

## Layout

- `src/` — the verified library.
  - `config` — flash layout, storage keys, the inputs and outputs a mapping
    can use, mapping modes, profiles, and the names they are written by.
  - `collections` — the fixed-capacity lists and strings of the configuration,
    backed by `heapless`.
  - `mapping_state` — the state machine that runs one mapping: when its output
    sequence starts, advances and stops, and which key and mouse events it sends.
  - `input` — the scan of the key matrix: which mappings count as pressed and
    the per-tick run of every mapping of the loaded profile.
  - `mouse` — mouse velocities and the reports sent to the host.
  - `kdl_mapping`, `config_kdl` — reading the configuration file: its text
    parsed by the `kdl` crate, mappings written `mode : inputs -> outputs`,
    the other settings, and the diagnostics for what does not read.
  - `key_names` — every key's name reads back as that key.
  - `buffer_nor_flash`, `flash_image`, `config_store`, `web_config` — the
    config image built in memory, how images are laid out on flash, the
    device's config storage, and the web configurator protocol.
  - `text` — character-level helpers.
- `tests/` — tests of the library.
- `app/` — the flashing tool: command line, loading the configuration file,
  reporting diagnostics with `miette`, and talking to the board over PICOBOOT.

## Configuration file

```kdl
version 0
device rukey
nickname "My rukey"
color 0xFF0000
pin-remappings {
    - row2-col0 3
}
profiles {
    - {
        mappings {
            - on-press : row0-col0 -> mouse-scroll-up 20
            - on-hold 50 : row1-col0 + row1-col1 -> after-millis-hold 50 + set-profile 2
        }
    }
}
```

## Flashing

```
app --firmware rukey_firmware.bin [config.kdl]
app --firmware rukey_firmware.bin --erase-config
```

The firmware is given as a raw binary image.
