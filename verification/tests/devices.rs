use rukey::buffer_nor_flash::BufferNorFlash;
use rukey::config::{ConfigKey, CONFIG_AVAILABLE_SIZE, FIRMWARE_SIZE};
use rukey::config_store::{
    config_image_items, link_step, meta_bytes_from_fetch, meta_store_items, profile_bytes_from_fetch,
    profile_count_or_zero, profile_slot, FeedOutcome, LinkStep,
};
use rukey::web_config::{
    frame_response, response_for, response_packets, storage_call, CallOutcome, Request, Response,
    StorageCall,
};
use rukey::collections::{MetaBytes, ProfileBytes};
use rukey::flash_image::{
    bin_pages, check_config_size, check_firmware_size, page_addresses, sector_addresses, ImageError,
};
use rukey::mapping_state::MouseEvent;
use rukey::config::MouseInput;
use rukey::mouse::{Axis, MouseReportState};

#[test]
fn axis_reports_whole_pixels_and_keeps_the_rest() {
    let mut a = Axis::new();
    a.add_velocity(1500);
    assert_eq!(a.tick(), 1);
    assert_eq!(a.remainder, 500);
    assert_eq!(a.tick(), 2);
    assert_eq!(a.remainder, 0);
    a.sub_velocity(3000);
    assert_eq!(a.velocity, -1500);
    assert_eq!(a.tick(), -1);
    assert_eq!(a.remainder, -500);
    assert_eq!(a.tick(), -2);
    assert_eq!(a.remainder, 0);
    let mut fast = Axis::new();
    fast.add_velocity(300_000);
    assert_eq!(fast.tick(), 127);
    let mut slow = Axis::new();
    slow.add_velocity(-300_000);
    assert_eq!(slow.tick(), -127);
}

#[test]
fn mouse_report_follows_events() {
    let mut m = MouseReportState::new();
    let press = MouseEvent::Pressed(MouseInput::MoveRight(2000));
    assert!(m.event_fits(press));
    m.apply(press);
    m.apply(MouseEvent::Pressed(MouseInput::ScrollUp(1000)));
    m.apply(MouseEvent::Pressed(MouseInput::ClickLeft));
    m.apply(MouseEvent::Pressed(MouseInput::ClickMiddle));
    assert!(m.report_fits());
    let r = m.report();
    assert_eq!((r.buttons, r.x, r.y, r.wheel, r.pan), (0b101, 2, 0, 1, 0));
    m.apply(MouseEvent::Released(MouseInput::MoveRight(2000)));
    m.apply(MouseEvent::Released(MouseInput::ClickLeft));
    m.apply(MouseEvent::Pressed(MouseInput::MoveUp(1000)));
    m.apply(MouseEvent::Pressed(MouseInput::ScrollLeft(3000)));
    let r = m.report();
    assert_eq!((r.buttons, r.x, r.y, r.wheel, r.pan), (0b100, 0, -1, 1, -3));
    let mut full = MouseReportState::new();
    full.cursor_x.velocity = i32::MAX;
    assert!(!full.event_fits(MouseEvent::Pressed(MouseInput::MoveRight(1))));
    assert!(full.event_fits(MouseEvent::Pressed(MouseInput::MoveLeft(1))));
}

#[test]
fn buffer_flash_erase_write_read() {
    let mut f = BufferNorFlash::new(16);
    assert_eq!(f.capacity(), 16);
    f.write(2, &[0x0F, 0xF0]).unwrap();
    let mut out = [0u8; 4];
    f.read(0, &mut out).unwrap();
    assert_eq!(out, [0xFF, 0xFF, 0x0F, 0xF0]);
    f.write(2, &[0xFF, 0x3C]).unwrap();
    f.read(2, &mut out[..2]).unwrap();
    assert_eq!(&out[..2], &[0x0F, 0x30]);
    f.erase(0, 4).unwrap();
    f.read(0, &mut out).unwrap();
    assert_eq!(out, [0xFF; 4]);
    f.write(5, &[1]).unwrap();
    assert_eq!(f.into_buffer(), vec![0xFF, 0xFF, 0xFF, 0xFF, 0xFF, 1]);
    assert_eq!(BufferNorFlash::new(8).into_buffer(), Vec::<u8>::new());
}

#[test]
fn pages_and_sectors() {
    let data: Vec<u8> = (0..300u32).map(|i| i as u8).collect();
    let pages = bin_pages(&data);
    assert_eq!(pages.len(), 2);
    assert_eq!(pages[0], data[..256].to_vec());
    assert_eq!(&pages[1][..44], &data[256..]);
    assert!(pages[1][44..].iter().all(|&b| b == 0));
    assert!(bin_pages(&[]).is_empty());
    assert_eq!(bin_pages(&[7u8; 256]).len(), 1);
    assert_eq!(sector_addresses(0x100000, 4097), vec![0x10100000, 0x10101000]);
    assert_eq!(sector_addresses(0, 0), Vec::<u32>::new());
    assert_eq!(page_addresses(0x100000, 3), vec![0x10100000, 0x10100100, 0x10100200]);
    assert_eq!(check_firmware_size(FIRMWARE_SIZE), Ok(()));
    assert_eq!(
        check_firmware_size(FIRMWARE_SIZE + 1),
        Err(ImageError::FirmwareTooLarge { len: FIRMWARE_SIZE + 1, max: FIRMWARE_SIZE })
    );
    assert_eq!(check_config_size(0), Ok(()));
    assert_eq!(
        check_config_size(CONFIG_AVAILABLE_SIZE + 5),
        Err(ImageError::ConfigTooLarge { len: CONFIG_AVAILABLE_SIZE + 5, max: CONFIG_AVAILABLE_SIZE })
    );
}

#[test]
fn config_store_decisions() {
    assert_eq!(profile_count_or_zero(Ok(Some(2))), 2);
    assert_eq!(profile_count_or_zero(Ok(None)), 0);
    assert_eq!(profile_count_or_zero(Err(())), 0);
    assert_eq!(meta_bytes_from_fetch(Ok(Some(&[1, 2, 3]))).unwrap().as_slice(), &[1, 2, 3]);
    assert!(meta_bytes_from_fetch(Ok(Some(&[7; 256]))).is_ok());
    assert!(meta_bytes_from_fetch(Ok(Some(&[7; 257]))).is_err());
    assert!(meta_bytes_from_fetch(Ok(None)).is_err());
    assert!(meta_bytes_from_fetch(Err(())).is_err());
    assert_eq!(profile_bytes_from_fetch(Ok(Some(&[4; 4096]))).unwrap().as_slice().len(), 4096);
    assert!(profile_bytes_from_fetch(Ok(Some(&[4; 4097]))).is_err());
    assert!(profile_bytes_from_fetch(Ok(None)).is_err());
    assert_eq!(profile_slot(0), Ok((2, 1)));
    assert_eq!(profile_slot(1), Ok((3, 2)));
    assert_eq!(profile_slot(2), Err(()));
    assert_eq!(meta_store_items(vec![9]), vec![(0, vec![9]), (1, vec![0])]);
    assert_eq!(
        config_image_items(vec![9], vec![vec![1], vec![2, 2]]),
        vec![(0, vec![9]), (2, vec![1]), (3, vec![2, 2]), (1, vec![2])]
    );
    assert_eq!(ConfigKey::Profile(1).key(), 3);
    assert_eq!(link_step(FeedOutcome::Consumed), LinkStep::ReadMore);
    assert_eq!(link_step(FeedOutcome::OverFull), LinkStep::ProtocolError);
    assert_eq!(link_step(FeedOutcome::DeserError), LinkStep::ProtocolError);
    assert_eq!(link_step(FeedOutcome::Success), LinkStep::Answer);
}

#[test]
fn requests_pick_their_storage_call() {
    assert!(matches!(storage_call(&Request::GetMeta), StorageCall::LoadMeta));
    assert!(matches!(storage_call(&Request::GetProfileCount), StorageCall::CountProfiles));
    assert!(matches!(storage_call(&Request::GetProfile(1)), StorageCall::LoadProfile(1)));
    let meta = Request::SetMeta(MetaBytes::from_slice(&[1, 2]).unwrap());
    assert!(matches!(storage_call(&meta), StorageCall::StoreMeta(&[1, 2])));
    let profile = Request::AddProfile(ProfileBytes::from_slice(&[3]).unwrap());
    assert!(matches!(storage_call(&profile), StorageCall::AddProfile(&[3])));
    assert!(matches!(storage_call(&Request::ReloadConfig), StorageCall::SignalReload));
}

#[test]
fn responses_go_out_in_full_packets() {
    let frame: Vec<u8> = (0..150u32).map(|b| b as u8).collect();
    let packets = response_packets(&frame);
    assert_eq!(packets.len(), 3);
    assert_eq!(packets[0].len(), 64);
    assert_eq!(packets[1].len(), 64);
    assert_eq!(packets[2].len(), 22);
    assert_eq!(packets.concat(), frame);
    let chunks: Vec<Vec<u8>> = frame.chunks(64).map(|c| c.to_vec()).collect();
    assert_eq!(packets, chunks);
    assert!(response_packets(&[]).is_empty());
    assert_eq!(response_packets(&[5; 64]), vec![vec![5; 64]]);
}

#[test]
fn each_call_is_answered_by_its_response() {
    let meta = MetaBytes::from_slice(&[1, 2]).unwrap();
    match response_for(&StorageCall::LoadMeta, CallOutcome::MetaLoaded(Ok(meta))) {
        Response::GetMeta(Ok(b)) => assert_eq!(b.as_slice(), &[1, 2]),
        _ => panic!("expected GetMeta"),
    }
    assert!(matches!(
        response_for(&StorageCall::LoadMeta, CallOutcome::MetaLoaded(Err(()))),
        Response::GetMeta(Err(()))
    ));
    assert!(matches!(
        response_for(&StorageCall::CountProfiles, CallOutcome::ProfilesCounted(2)),
        Response::GetProfileCount(2)
    ));
    assert!(matches!(
        response_for(&StorageCall::LoadProfile(1), CallOutcome::ProfileLoaded(Err(()))),
        Response::GetProfile(Err(()))
    ));
    assert!(matches!(
        response_for(&StorageCall::StoreMeta(&[1]), CallOutcome::MetaStored(Ok(()))),
        Response::SetMeta(Ok(()))
    ));
    assert!(matches!(
        response_for(&StorageCall::AddProfile(&[1]), CallOutcome::ProfileAdded(Err(()))),
        Response::AddProfile(Err(()))
    ));
    assert!(matches!(
        response_for(&StorageCall::SignalReload, CallOutcome::ReloadSignalled),
        Response::ReloadConfig
    ));
    assert!(matches!(
        response_for(&StorageCall::SignalReload, CallOutcome::ProfilesCounted(1)),
        Response::ProtocolError
    ));
}

#[test]
fn bad_frames_are_answered_with_a_protocol_error() {
    assert!(matches!(frame_response(FeedOutcome::OverFull), Some(Response::ProtocolError)));
    assert!(matches!(frame_response(FeedOutcome::DeserError), Some(Response::ProtocolError)));
    assert!(frame_response(FeedOutcome::Consumed).is_none());
    assert!(frame_response(FeedOutcome::Success).is_none());
}

#[test]
fn a_second_of_motion_reports_the_velocity() {
    for v in [0, 1, 999, 1500, 127000, -1, -1500, -127000] {
        let mut a = Axis::new();
        a.add_velocity(v);
        let mut total: i64 = 0;
        for _ in 0..1000 {
            total += a.tick() as i64;
        }
        assert_eq!(total, v as i64);
        assert_eq!(a.remainder, 0);
        assert_eq!(a.velocity, v);
    }
}

#[test]
fn the_buffer_reaches_the_furthest_write_or_erase() {
    let mut f = BufferNorFlash::new(64);
    assert_eq!(f.write(4, &[1, 2]), Ok(()));
    assert_eq!(f.erase(8, 16), Ok(()));
    assert_eq!(f.write(0, &[0]), Ok(()));
    let b = f.into_buffer();
    assert_eq!(b.len(), 16);
    assert_eq!(&b[..7], &[0, 0xFF, 0xFF, 0xFF, 1, 2, 0xFF]);
}

#[test]
fn a_press_and_its_release_cancel_around_other_events() {
    let mut m = MouseReportState::new();
    m.apply(MouseEvent::Pressed(MouseInput::MoveUp(5)));
    m.apply(MouseEvent::Pressed(MouseInput::ScrollDown(3)));
    m.apply(MouseEvent::Released(MouseInput::MoveUp(5)));
    let mut n = MouseReportState::new();
    n.apply(MouseEvent::Pressed(MouseInput::ScrollDown(3)));
    assert_eq!(m.cursor_x, n.cursor_x);
    assert_eq!(m.cursor_y, n.cursor_y);
    assert_eq!(m.scroll_x, n.scroll_x);
    assert_eq!(m.scroll_y, n.scroll_y);
}
