//! The closed set of user intents the core consumes, and the instructions it
//! hands back to the surrounding shell. This tagged-union seam is independent
//! of any particular UI toolkit.

use vstd::prelude::*;

use crate::error::ComputeError;
use crate::state::State;

verus! {

/// One user intent, as produced by the surrounding shell.
#[derive(Debug, Clone, Copy)]
pub enum Interaction {
    Undo,
    Redo,
    SelectImage,
    ExportImage,
    CopyToClipboard,
    ImFeelingLucky,
    OpenProjectRepo,
    /// Commit the current snapshot to history (end of a drag gesture).
    SaveParameters,
    UpX(u32),
    UpY(u32),
    UpBlur(i32),
    UpHue(i32),
    UpBrightness(i32),
    UpContrast(i32),
    /// Do nothing; useful to keep read-only text inputs enabled.
    Ignored,
}

impl Interaction {
    /// The shell pre-validates slider values to the documented ranges; the
    /// core performs no additional clamping.
    pub open spec fn valid(self) -> bool {
        match self {
            Interaction::UpX(x) => 1 <= x <= 8,
            Interaction::UpY(y) => 1 <= y <= 8,
            Interaction::UpBlur(blur) => 0 <= blur <= 32,
            Interaction::UpHue(hue) => -180 <= hue <= 180,
            Interaction::UpBrightness(brightness) => -100 <= brightness <= 100,
            Interaction::UpContrast(contrast) => -100 <= contrast <= 100,
            _ => true,
        }
    }

    /// The snapshot after this intent's field update; intents that update no
    /// field leave the snapshot unchanged.
    pub open spec fn applied_to(self, s: State) -> State {
        match self {
            Interaction::UpX(x) => State { components: (x, s.components.1), ..s },
            Interaction::UpY(y) => State { components: (s.components.0, y), ..s },
            Interaction::UpBlur(blur) => State { blur, ..s },
            Interaction::UpHue(hue) => State { hue_rotate: hue, ..s },
            Interaction::UpBrightness(brightness) => State { brightness, ..s },
            Interaction::UpContrast(contrast) => State { contrast, ..s },
            _ => s,
        }
    }

}

/// Maps an application hotkey, pressed together with the platform's command
/// key, to its intent: `o` opens, `c` copies, `s` saves, and `z` undoes, or
/// redoes with shift held.
pub fn handle_hotkey(key: char, shift: bool) -> (r: Option<Interaction>)
    ensures
        r == (match key {
            'o' => Option::Some(Interaction::SelectImage),
            'c' => Option::Some(Interaction::CopyToClipboard),
            's' => Option::Some(Interaction::ExportImage),
            'z' => Option::Some(
                if shift {
                    Interaction::Redo
                } else {
                    Interaction::Undo
                },
            ),
            _ => Option::None,
        }),
{
    match key {
        'o' => Option::Some(Interaction::SelectImage),
        'c' => Option::Some(Interaction::CopyToClipboard),
        's' => Option::Some(Interaction::ExportImage),
        'z' => {
            if shift {
                Option::Some(Interaction::Redo)
            } else {
                Option::Some(Interaction::Undo)
            }
        },
        _ => Option::None,
    }
}

/// What the shell must do after the core has handled an intent. Everything
/// here is outside work the core cannot perform itself: dialogs, the
/// clipboard, the network, the browser.
#[derive(Debug)]
pub enum Directive {
    /// Nothing to do.
    Idle,
    /// Open a file picker and hand the chosen image to `load_image`.
    PickImageFile,
    /// Ask for an export path, render via `export`, and save the result.
    PromptExport,
    /// Place the current hash string on the clipboard.
    CopyToClipboard(String),
    /// Fetch a random image and hand it to `load_image`.
    DownloadRandomImage,
    /// Open the project repository in a browser.
    OpenProjectRepo,
    /// Show the failure of a recomputation; the previous result stays on
    /// display.
    ReportError(ComputeError),
}

} // verus!
