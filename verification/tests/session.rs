//! End-to-end tests of the orchestrator: load, mutate, commit, undo, redo,
//! export, with the real pipeline and codec underneath.

use blurthing_core::error::ComputeError;
use blurthing_core::message::handle_hotkey;
use blurthing_core::message::Directive;
use blurthing_core::message::Interaction;
use blurthing_core::session::BlurThing;

/// A small source buffer of fixed, non-uniform pixel content: a color
/// gradient, so every adjustment visibly changes it.
fn test_pixels(width: u32, height: u32) -> Vec<u8> {
    let mut pixels = Vec::new();
    for y in 0..height {
        for x in 0..width {
            pixels.push((x * 255 / width.max(1)) as u8);
            pixels.push((y * 255 / height.max(1)) as u8);
            pixels.push(((x + y) * 127 / (width + height).max(1)) as u8);
            pixels.push(255);
        }
    }
    pixels
}

fn loaded_session() -> BlurThing {
    let mut session = BlurThing::new();
    session
        .load_image(test_pixels(8, 8), 8, 8)
        .expect("loading a well-formed source buffer must compute a preview");
    session
}

fn current_hash(session: &BlurThing) -> String {
    let (hash, _) = session.computed().expect("a result should be computed");
    hash.clone()
}

#[test]
fn fresh_session_has_no_image_and_nothing_computed() {
    let session = BlurThing::new();
    assert!(!session.has_image());
    assert!(session.computed().is_none());
    assert!(!session.is_downloading());
    let s = session.state();
    assert_eq!(s.components, (4, 3));
    assert_eq!(s.blur, 0);
    assert_eq!(s.hue_rotate, 0);
    assert_eq!(s.brightness, 0);
    assert_eq!(s.contrast, 0);
}

#[test]
fn compute_without_image_reports_no_source_image() {
    let session = BlurThing::new();
    assert_eq!(
        session.compute_blurhash(64),
        Err(ComputeError::NoSourceImage)
    );
}

#[test]
fn load_image_computes_an_initial_preview() {
    let session = loaded_session();
    assert!(session.has_image());
    let (hash, preview) = session.computed().expect("initial preview");
    // A (4, 3) grid encodes to 1 + 1 + 4 + 2 * (4 * 3 - 1) characters.
    assert_eq!(hash.len(), 28);
    assert_eq!(preview.len(), 4 * 512 * 512);
}

#[test]
fn identical_inputs_give_byte_identical_results() {
    let session = loaded_session();
    let (hash_a, preview_a) = session.export(64).unwrap();
    let (hash_b, preview_b) = session.export(64).unwrap();
    assert_eq!(hash_a, hash_b);
    assert_eq!(preview_a, preview_b);
}

#[test]
fn noop_edit_recomputes_the_same_hash() {
    let mut session = loaded_session();
    let before = current_hash(&session);
    // blur is already 0: setting it to its current value must not change
    // the outcome.
    let d = session.handle_interaction(Interaction::UpBlur(0));
    assert!(matches!(d, Directive::Idle));
    assert_eq!(session.state().blur, 0);
    assert_eq!(current_hash(&session), before);
}

#[test]
fn boundary_grids_and_blurs_succeed() {
    let mut session = loaded_session();
    assert!(matches!(
        session.handle_interaction(Interaction::UpX(1)),
        Directive::Idle
    ));
    assert!(matches!(
        session.handle_interaction(Interaction::UpY(1)),
        Directive::Idle
    ));
    assert_eq!(session.state().components, (1, 1));
    // A (1, 1) grid has no AC components: 6 characters.
    assert_eq!(current_hash(&session).len(), 6);

    assert!(matches!(
        session.handle_interaction(Interaction::UpX(8)),
        Directive::Idle
    ));
    assert!(matches!(
        session.handle_interaction(Interaction::UpY(8)),
        Directive::Idle
    ));
    assert_eq!(current_hash(&session).len(), 4 + 2 * 64);

    assert!(matches!(
        session.handle_interaction(Interaction::UpBlur(0)),
        Directive::Idle
    ));
    assert!(matches!(
        session.handle_interaction(Interaction::UpBlur(32)),
        Directive::Idle
    ));
    assert!(session.computed().is_some());
}

#[test]
fn mutation_changes_the_hash_and_never_touches_history() {
    let mut session = loaded_session();
    let initial = current_hash(&session);

    // An uncommitted mutation recomputes ...
    let d = session.handle_interaction(Interaction::UpBlur(10));
    assert!(matches!(d, Directive::Idle));
    let mutated = current_hash(&session);
    assert_ne!(mutated, initial);

    // ... but pushes nothing: the history still holds only the initial
    // defaults, which are the current entry, so there is nothing to undo
    // and the uncommitted snapshot stays in place.
    let d = session.handle_interaction(Interaction::Undo);
    assert!(matches!(d, Directive::Idle));
    assert_eq!(session.state().blur, 10);
    assert_eq!(current_hash(&session), mutated);
}

#[test]
fn commit_undo_undo_walks_back_through_snapshots() {
    let mut session = loaded_session();
    let initial = current_hash(&session);

    session.handle_interaction(Interaction::UpBlur(10));
    let blurred = current_hash(&session);
    assert_ne!(blurred, initial);
    session.handle_interaction(Interaction::SaveParameters);

    session.handle_interaction(Interaction::UpHue(90));
    let rotated = current_hash(&session);
    assert_ne!(rotated, blurred);
    session.handle_interaction(Interaction::SaveParameters);

    // First undo: back to the committed blur-10 snapshot.
    session.handle_interaction(Interaction::Undo);
    assert_eq!(session.state().blur, 10);
    assert_eq!(session.state().hue_rotate, 0);
    assert_eq!(current_hash(&session), blurred);

    // Second undo: back to the all-default snapshot.
    session.handle_interaction(Interaction::Undo);
    assert_eq!(session.state().blur, 0);
    assert_eq!(session.state().hue_rotate, 0);
    assert_eq!(current_hash(&session), initial);

    // Third undo: a silent no-op, state unchanged.
    let d = session.handle_interaction(Interaction::Undo);
    assert!(matches!(d, Directive::Idle));
    assert_eq!(session.state().blur, 0);
    assert_eq!(session.state().hue_rotate, 0);
    assert_eq!(current_hash(&session), initial);
}

#[test]
fn redo_restores_an_undone_commit() {
    let mut session = loaded_session();

    session.handle_interaction(Interaction::UpContrast(40));
    session.handle_interaction(Interaction::SaveParameters);
    let contrasted = current_hash(&session);

    session.handle_interaction(Interaction::Undo);
    assert_eq!(session.state().contrast, 0);

    session.handle_interaction(Interaction::Redo);
    assert_eq!(session.state().contrast, 40);
    assert_eq!(current_hash(&session), contrasted);

    // At the last entry, redo is a silent no-op.
    let d = session.handle_interaction(Interaction::Redo);
    assert!(matches!(d, Directive::Idle));
    assert_eq!(session.state().contrast, 40);
}

#[test]
fn commit_after_undo_discards_the_redo_branch() {
    let mut session = loaded_session();

    session.handle_interaction(Interaction::UpBlur(4));
    session.handle_interaction(Interaction::SaveParameters);
    session.handle_interaction(Interaction::Undo);

    session.handle_interaction(Interaction::UpHue(45));
    session.handle_interaction(Interaction::SaveParameters);

    // The blur-4 commit is gone: redo finds no successor.
    let d = session.handle_interaction(Interaction::Redo);
    assert!(matches!(d, Directive::Idle));
    assert_eq!(session.state().hue_rotate, 45);
    assert_eq!(session.state().blur, 0);
}

#[test]
fn loading_a_new_image_resets_parameters_and_history() {
    let mut session = loaded_session();
    session.handle_interaction(Interaction::UpBlur(10));
    session.handle_interaction(Interaction::SaveParameters);

    session
        .load_image(test_pixels(6, 4), 6, 4)
        .expect("second load");
    assert_eq!(session.state().blur, 0);
    assert_eq!(session.state().components, (4, 3));

    // The old history is gone: nothing to undo on the fresh document.
    let d = session.handle_interaction(Interaction::Undo);
    assert!(matches!(d, Directive::Idle));
    assert_eq!(session.state().blur, 0);
}

#[test]
fn export_uses_the_current_uncommitted_snapshot() {
    let mut session = loaded_session();
    let (hash_before, preview) = session.export(16).unwrap();
    assert_eq!(preview.len(), 4 * 16 * 16);

    session.handle_interaction(Interaction::UpBrightness(80));
    let (hash_after, _) = session.export(16).unwrap();
    assert_ne!(hash_after, hash_before);

    // Exporting neither commits nor recomputes the preview cache: undo
    // still finds nothing.
    session.handle_interaction(Interaction::Undo);
    assert_eq!(session.state().brightness, 80);
}

#[test]
fn shell_directives_come_back_from_the_dispatch() {
    let mut session = BlurThing::new();
    assert!(matches!(
        session.handle_interaction(Interaction::SelectImage),
        Directive::PickImageFile
    ));
    // No image loaded: nothing to export.
    assert!(matches!(
        session.handle_interaction(Interaction::ExportImage),
        Directive::Idle
    ));
    // Nothing computed: nothing to copy.
    assert!(matches!(
        session.handle_interaction(Interaction::CopyToClipboard),
        Directive::Idle
    ));
    assert!(matches!(
        session.handle_interaction(Interaction::OpenProjectRepo),
        Directive::OpenProjectRepo
    ));
    assert!(matches!(
        session.handle_interaction(Interaction::Ignored),
        Directive::Idle
    ));

    assert!(matches!(
        session.handle_interaction(Interaction::ImFeelingLucky),
        Directive::DownloadRandomImage
    ));
    assert!(session.is_downloading());
    session.finish_download();
    assert!(!session.is_downloading());
}

#[test]
fn export_and_copy_directives_with_an_image() {
    let mut session = loaded_session();
    assert!(matches!(
        session.handle_interaction(Interaction::ExportImage),
        Directive::PromptExport
    ));
    let expected = current_hash(&session);
    match session.handle_interaction(Interaction::CopyToClipboard) {
        Directive::CopyToClipboard(hash) => assert_eq!(hash, expected),
        other => panic!("expected a clipboard directive, got {:?}", other),
    }
}

#[test]
fn mutation_without_an_image_reports_the_missing_source() {
    let mut session = BlurThing::new();
    let d = session.handle_interaction(Interaction::UpBlur(10));
    assert!(matches!(
        d,
        Directive::ReportError(ComputeError::NoSourceImage)
    ));
    // The field change itself is applied; only the recompute has nothing to
    // work on, and the cache stays untouched.
    assert_eq!(session.state().blur, 10);
    assert!(session.computed().is_none());
}

#[test]
fn allowed_extensions_are_the_supported_image_types() {
    for ext in ["bmp", "gif", "jpg", "jpeg", "png", "tga", "tiff", "webp"] {
        assert!(
            BlurThing::is_allowed_extension(&ext.to_string()),
            "{} should be allowed",
            ext
        );
    }
    assert!(!BlurThing::is_allowed_extension(&"exe".to_string()));
    assert!(!BlurThing::is_allowed_extension(&"JPG".to_string()));
    assert!(!BlurThing::is_allowed_extension(&"".to_string()));
    assert!(!BlurThing::is_allowed_extension(&"jpg ".to_string()));
}

#[test]
fn hotkeys_map_to_their_intents() {
    assert!(matches!(
        handle_hotkey('o', false),
        Some(Interaction::SelectImage)
    ));
    assert!(matches!(
        handle_hotkey('c', false),
        Some(Interaction::CopyToClipboard)
    ));
    assert!(matches!(
        handle_hotkey('s', false),
        Some(Interaction::ExportImage)
    ));
    assert!(matches!(handle_hotkey('z', false), Some(Interaction::Undo)));
    assert!(matches!(handle_hotkey('z', true), Some(Interaction::Redo)));
    assert!(handle_hotkey('q', false).is_none());
    assert!(handle_hotkey('o', true).is_some());
}

#[test]
fn error_messages_describe_each_failure() {
    assert_eq!(
        ComputeError::NoSourceImage.message(),
        "source image is not available"
    );
    assert_eq!(
        ComputeError::EncodeFailed.message(),
        "failed to compute the blurhash"
    );
    assert_eq!(
        ComputeError::DecodeFailed.message(),
        "failed to decode the computed blurhash"
    );
    assert_eq!(
        ComputeError::PreviewMismatch.message(),
        "failed to create preview image from decoded buffer"
    );
}
