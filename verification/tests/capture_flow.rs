use niri_shot::capture::{
    normalize_region, trim_bytes, CaptureBackend, CaptureError, CaptureMode, CaptureStep,
};

#[test]
fn fullscreen_grabs_at_once() {
    let step = CaptureBackend::capture(CaptureMode::Fullscreen, true, None);
    assert_eq!(step, CaptureStep::Grab { geometry: None });
}

#[test]
fn region_offers_the_remembered_geometry_on_a_terminal() {
    let last = b"0,0 1920x1080".to_vec();
    let step = CaptureBackend::capture(CaptureMode::Region, true, Some(last.clone()));
    assert_eq!(step, CaptureStep::PromptReuse { last });
}

#[test]
fn region_without_memory_or_terminal_selects() {
    let step = CaptureBackend::capture(CaptureMode::Region, true, None);
    assert_eq!(step, CaptureStep::SelectRegion);
    let step = CaptureBackend::capture(CaptureMode::Region, false, Some(b"x".to_vec()));
    assert_eq!(step, CaptureStep::SelectRegion);
}

#[test]
fn window_mode_selects_a_window() {
    let step = CaptureBackend::capture(CaptureMode::Window, false, None);
    assert_eq!(step, CaptureStep::SelectWindow);
}

#[test]
fn empty_prompt_reply_reuses_the_region() {
    let last = b"10,10 100x100".to_vec();
    let step = CaptureBackend::after_prompt(last.clone(), b"  \n");
    assert_eq!(step, CaptureStep::Grab { geometry: Some(last) });
    let step = CaptureBackend::after_prompt(b"x".to_vec(), b"n\n");
    assert_eq!(step, CaptureStep::SelectRegion);
}

#[test]
fn cancelled_selection_is_an_error() {
    let r = CaptureBackend::after_selection(false, b"", false);
    assert_eq!(r, Err(CaptureError::SelectionCancelled));
}

#[test]
fn empty_selection_output_names_what_was_missing() {
    let r = CaptureBackend::after_selection(true, b" \n", false);
    assert_eq!(r, Err(CaptureError::NoRegionSelected));
    let r = CaptureBackend::after_selection(true, b"", true);
    assert_eq!(r, Err(CaptureError::NoWindowSelected));
}

#[test]
fn selection_output_is_trimmed_into_a_grab() {
    let r = CaptureBackend::after_selection(true, b"  0,0 10x10\n", false);
    assert_eq!(r, Ok(CaptureStep::Grab { geometry: Some(b"0,0 10x10".to_vec()) }));
}

#[test]
fn trim_strips_ascii_whitespace_only_at_the_ends() {
    assert_eq!(trim_bytes(b"\t a b \r\n"), b"a b".to_vec());
    assert_eq!(trim_bytes(b"   "), Vec::<u8>::new());
    assert_eq!(trim_bytes(b""), Vec::<u8>::new());
    assert_eq!(trim_bytes(b"x"), b"x".to_vec());
}

#[test]
fn normalize_region_rejects_blank_memories() {
    assert_eq!(normalize_region(b" \n"), None);
    assert_eq!(normalize_region(b" 5,5 9x9 \n"), Some(b"5,5 9x9".to_vec()));
}
