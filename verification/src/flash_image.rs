//! Laying out data for the RP2040 flash: pages to write, sectors to erase, and
//! the size limits of the firmware and config regions.

use vstd::prelude::*;

use crate::config::{CONFIG_AVAILABLE_SIZE, FIRMWARE_SIZE};

verus! {

/// `picoboot_rs::PAGE_SIZE`: flash is written a page of 256 bytes at a time.
#[verifier::external_body]
pub(crate) fn pico_page_size() -> (r: u32)
    ensures
        r == 256,
{
    picoboot_rs::PAGE_SIZE
}

/// `picoboot_rs::SECTOR_SIZE`: flash is erased a sector of 4096 bytes at a time.
#[verifier::external_body]
pub(crate) fn pico_sector_size() -> (r: u32)
    ensures
        r == 4096,
{
    picoboot_rs::SECTOR_SIZE
}

/// `picoboot_rs::FLASH_START`: the address at which flash is mapped, `0x10000000`.
#[verifier::external_body]
pub(crate) fn pico_flash_start() -> (r: u32)
    ensures
        r == 0x10000000,
{
    picoboot_rs::FLASH_START
}

/// A firmware or config image that does not fit in its flash region.
#[derive(Debug, Clone, Copy, PartialEq, Eq, Structural)]
pub enum ImageError {
    FirmwareTooLarge { len: usize, max: usize },
    ConfigTooLarge { len: usize, max: usize },
}

/// Accepts a firmware of `len` bytes if it fits in the firmware region.
pub fn check_firmware_size(len: usize) -> (r: Result<(), ImageError>)
    ensures
        len <= FIRMWARE_SIZE ==> r is Ok,
        len > FIRMWARE_SIZE ==> r == Err::<(), ImageError>(
            ImageError::FirmwareTooLarge { len, max: FIRMWARE_SIZE },
        ),
{
    if len > FIRMWARE_SIZE {
        Err(ImageError::FirmwareTooLarge { len, max: FIRMWARE_SIZE })
    } else {
        Ok(())
    }
}

/// Accepts a config image of `len` bytes if it fits in the config region.
pub fn check_config_size(len: usize) -> (r: Result<(), ImageError>)
    ensures
        len <= CONFIG_AVAILABLE_SIZE ==> r is Ok,
        len > CONFIG_AVAILABLE_SIZE ==> r == Err::<(), ImageError>(
            ImageError::ConfigTooLarge { len, max: CONFIG_AVAILABLE_SIZE },
        ),
{
    if len > CONFIG_AVAILABLE_SIZE {
        Err(ImageError::ConfigTooLarge { len, max: CONFIG_AVAILABLE_SIZE })
    } else {
        Ok(())
    }
}

/// Number of pages that `len` bytes take.
pub open spec fn page_count(len: int) -> int {
    (len + 255) / 256
}

/// Number of sectors that `len` bytes take.
pub open spec fn sector_count(len: int) -> int {
    (len + 4095) / 4096
}

/// Page `k` of `data`: its bytes `k*256..`, zero-filled to a whole page.
pub open spec fn page_of(data: Seq<u8>, k: int) -> Seq<u8> {
    Seq::new(256, |j: int| if k * 256 + j < data.len() { data[k * 256 + j] } else { 0u8 })
}

/// Splits `data` into the pages to write, in order, the last one zero-filled.
pub fn bin_pages(data: &[u8]) -> (r: Vec<Vec<u8>>)
    ensures
        r@.len() == page_count(data@.len() as int),
        forall|k: int| 0 <= k < r@.len() ==> (#[trigger] r@[k])@ == page_of(data@, k),
{
    let len = data.len();
    let page_len = pico_page_size() as usize;
    let mut pages: Vec<Vec<u8>> = Vec::new();
    let mut start: usize = 0;
    while start < len
        invariant
            len == data@.len(),
            page_len == 256,
            start <= len,
            start < len ==> start == pages@.len() * 256,
            start == len ==> pages@.len() == page_count(len as int),
            forall|k: int| 0 <= k < pages@.len() ==> (#[trigger] pages@[k])@ == page_of(data@, k),
        decreases len - start,
    {
        let size = if len - start < page_len {
            len - start
        } else {
            page_len
        };
        let ghost k = pages@.len() as int;
        let mut page: Vec<u8> = Vec::new();
        let mut j: usize = 0;
        while j < page_len
            invariant
                len == data@.len(),
                page_len == 256,
                start + size <= len,
                size <= 256,
                start == k * 256,
                j <= 256,
                page@.len() == j,
                size == 256 || start + size == len,
                forall|m: int| 0 <= m < j ==> #[trigger] page@[m] == page_of(data@, k)[m],
            decreases 256 - j,
        {
            if j < size {
                page.push(data[start + j]);
            } else {
                page.push(0);
            }
            j += 1;
        }
        assert(page@ =~= page_of(data@, k));
        pages.push(page);
        start = start + size;
    }
    pages
}

/// The flash addresses of the sectors to erase for `size` bytes from `offset`
/// within flash, one per started sector.
pub fn sector_addresses(offset: usize, size: usize) -> (r: Vec<u32>)
    requires
        offset + sector_count(size as int) * 4096 + 0x10000000 <= u32::MAX,
    ensures
        r@.len() == sector_count(size as int),
        forall|i: int| 0 <= i < r@.len() ==> #[trigger] r@[i] == 0x10000000 + offset + i * 4096,
{
    let sector = pico_sector_size();
    let start = pico_flash_start();
    let sector_len = sector as usize;
    let count = size / sector_len + if size % sector_len == 0 {
        0
    } else {
        1
    };
    assert(count == sector_count(size as int));
    let mut r: Vec<u32> = Vec::new();
    let mut i: usize = 0;
    while i < count
        invariant
            count == sector_count(size as int),
            offset + count * 4096 + 0x10000000 <= u32::MAX,
            sector == 4096,
            start == 0x10000000,
            i <= count,
            r@.len() == i,
            forall|m: int| 0 <= m < i ==> #[trigger] r@[m] == 0x10000000 + offset + m * 4096,
        decreases count - i,
    {
        r.push(offset as u32 + (i as u32) * sector + start);
        i += 1;
    }
    r
}

/// The flash addresses of `count` pages written from `offset` within flash.
pub fn page_addresses(offset: usize, count: usize) -> (r: Vec<u32>)
    requires
        offset + count * 256 + 0x10000000 <= u32::MAX,
    ensures
        r@.len() == count,
        forall|i: int| 0 <= i < r@.len() ==> #[trigger] r@[i] == 0x10000000 + offset + i * 256,
{
    let page = pico_page_size();
    let start = pico_flash_start();
    let mut r: Vec<u32> = Vec::new();
    let mut i: usize = 0;
    while i < count
        invariant
            offset + count * 256 + 0x10000000 <= u32::MAX,
            page == 256,
            start == 0x10000000,
            i <= count,
            r@.len() == i,
            forall|m: int| 0 <= m < i ==> #[trigger] r@[m] == 0x10000000 + offset + m * 256,
        decreases count - i,
    {
        r.push(offset as u32 + (i as u32) * page + start);
        i += 1;
    }
    r
}

/// The pages hold the data in order, followed by fewer than a page of zeros.
pub proof fn lemma_pages_hold_the_data(data: Seq<u8>, i: int)
    requires
        0 <= i < page_count(data.len() as int) * 256,
    ensures
        page_of(data, i / 256)[i % 256] == if i < data.len() {
            data[i]
        } else {
            0u8
        },
        page_count(data.len() as int) * 256 - data.len() < 256,
{
}

/// Erasing the sectors of a region of `size` bytes covers every page written
/// there for data of at most `size` bytes.
pub proof fn lemma_erased_sectors_cover_written_pages(len: int, size: int)
    requires
        0 <= len <= size,
    ensures
        page_count(len) * 256 <= sector_count(size) * 4096,
{
}

} // verus!
