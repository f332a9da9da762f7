//! The recompute orchestrator: one session owns the loaded source image, the
//! current parameter snapshot, the undo/redo history and the cached computed
//! result, and sequences transform, encode and decode on every parameter
//! change. All failures are recovered here; none unwinds past this boundary.

use vstd::prelude::*;

use crate::codec;
use crate::error::ComputeError;
use crate::history::HistoryModel;
use crate::history::UndoHistory;
use crate::message::Directive;
use crate::message::Interaction;
use crate::pipeline;
use crate::state::State;

verus! {

/// The fixed square size of the interactive preview.
pub const PREVIEW_SIZE: u32 = 512;

/// The square size of a one-off export render.
pub const EXPORT_SIZE: u32 = 4196;

/// An immutable, already-decoded, downsampled RGBA source image, replaced
/// wholesale on a new load and never mutated in place.
#[derive(Debug)]
pub struct SourceImage {
    pub pixels: Vec<u8>,
    pub width: u32,
    pub height: u32,
}

impl SourceImage {
    /// Four bytes per pixel, nothing degenerate, and small enough for the
    /// codec's internal 32-bit index arithmetic.
    pub open spec fn wf(self) -> bool {
        &&& self.width >= 1
        &&& self.height >= 1
        &&& self.pixels@.len() == 4 * self.width * self.height
        &&& 4 * self.width * self.height <= u32::MAX
    }
}

/// The hash the pipeline and the codec produce for a source buffer and a
/// snapshot.
pub open spec fn spec_hash_of(pixels: Seq<u8>, width: int, height: int, s: State) -> Seq<char> {
    codec::spec_encode(
        s.components.0 as int,
        s.components.1 as int,
        width,
        height,
        pipeline::spec_transform(pixels, width, height, s),
    )
}

/// The outcome of one full recomputation at the given square size: the hash
/// and the decoded preview, or `None` when the codec rejects the freshly
/// computed hash at that size.
pub open spec fn spec_outcome_of(
    pixels: Seq<u8>,
    width: int,
    height: int,
    s: State,
    size: int,
) -> Option<(Seq<char>, Seq<u8>)> {
    match codec::spec_decode(spec_hash_of(pixels, width, height, s), size, size) {
        Option::Some(preview) => Option::Some((spec_hash_of(pixels, width, height, s), preview)),
        Option::None => Option::None,
    }
}

/// `spec_outcome_of`, read off a source image value.
pub open spec fn spec_outcome(img: SourceImage, s: State, size: int) -> Option<
    (Seq<char>, Seq<u8>),
> {
    spec_outcome_of(img.pixels@, img.width as int, img.height as int, s, size)
}

/// The outcome is a function of the source buffer, the snapshot and the
/// requested size alone: two recomputations from identical inputs agree bit
/// for bit, in the hash and in the preview.
pub proof fn lemma_outcome_deterministic(
    pixels1: Seq<u8>,
    pixels2: Seq<u8>,
    width1: int,
    width2: int,
    height1: int,
    height2: int,
    s1: State,
    s2: State,
    size1: int,
    size2: int,
)
    requires
        pixels1 == pixels2,
        width1 == width2,
        height1 == height2,
        s1 == s2,
        size1 == size2,
    ensures
        spec_outcome_of(pixels1, width1, height1, s1, size1) == spec_outcome_of(
            pixels2,
            width2,
            height2,
            s2,
            size2,
        ),
{
}

/// Setting a parameter field to its current value is a no-op: the snapshot,
/// and with it every recomputed hash and preview, stays exactly as it was.
pub proof fn lemma_noop_edit_idempotent(
    s: State,
    intent: Interaction,
    pixels: Seq<u8>,
    width: int,
    height: int,
    size: int,
)
    requires
        intent == Interaction::UpX(s.components.0) || intent == Interaction::UpY(s.components.1)
            || intent == Interaction::UpBlur(s.blur) || intent == Interaction::UpHue(s.hue_rotate)
            || intent == Interaction::UpBrightness(s.brightness) || intent
            == Interaction::UpContrast(s.contrast),
    ensures
        intent.applied_to(s) == s,
        spec_outcome_of(pixels, width, height, intent.applied_to(s), size) == spec_outcome_of(
            pixels,
            width,
            height,
            s,
            size,
        ),
{
}

/// How one recomputation at preview size lands in a session: with an image
/// loaded it succeeds and replaces the cached result; with none, the cache is
/// kept, so the display never goes blank, and the missing image is reported.
pub open spec fn preview_applied(
    img: Option<SourceImage>,
    s: State,
    before: Option<(Seq<char>, Seq<u8>)>,
    after: Option<(Seq<char>, Seq<u8>)>,
    d: Directive,
) -> bool {
    match img {
        Option::None => after == before && d == Directive::ReportError(
            ComputeError::NoSourceImage,
        ),
        Option::Some(img) => spec_outcome(img, s, PREVIEW_SIZE as int) matches Some(c) && after
            == Option::Some(c) && d == Directive::Idle,
    }
}

/// One editing session: the single owner of the loaded image, the current
/// snapshot, the history and the cached result. Single-threaded and
/// synchronous: every mutation triggers an immediate, blocking recompute.
pub struct BlurThing {
    img: Option<SourceImage>,
    computed: Option<(String, Vec<u8>)>,
    state: State,
    history: UndoHistory<State>,
    is_downloading_image: bool,
}

impl BlurThing {
    pub closed spec fn spec_img(&self) -> Option<SourceImage> {
        self.img
    }

    pub closed spec fn spec_computed(&self) -> Option<(Seq<char>, Seq<u8>)> {
        match self.computed {
            Option::Some((hash, preview)) => Option::Some((hash@, preview@)),
            Option::None => Option::None,
        }
    }

    pub closed spec fn spec_state(&self) -> State {
        self.state
    }

    pub closed spec fn spec_history(&self) -> HistoryModel<State> {
        self.history@
    }

    pub closed spec fn spec_downloading(&self) -> bool {
        self.is_downloading_image
    }

    /// The session invariant: a valid current snapshot, a well-formed history
    /// holding only valid snapshots, and a well-formed source image if one is
    /// loaded.
    pub open spec fn wf(&self) -> bool {
        &&& self.spec_state().valid()
        &&& self.spec_history().wf()
        &&& forall|i: int|
            0 <= i < self.spec_history().entries.len() ==> (
            #[trigger] self.spec_history().entries[i]).valid()
        &&& match self.spec_img() {
            Option::Some(img) => img.wf(),
            Option::None => true,
        }
    }

    /// A fresh session: no image, nothing computed, default parameters, and
    /// the default snapshot as the single history entry.
    pub fn new() -> (r: Self)
        ensures
            r.wf(),
            r.spec_img() is None,
            r.spec_computed() is None,
            r.spec_state() == State::spec_default(),
            r.spec_history() == HistoryModel::<State>::empty().pushed(State::spec_default()),
            !r.spec_downloading(),
    {
        let mut instance = BlurThing {
            img: Option::None,
            computed: Option::None,
            state: State::default(),
            history: UndoHistory::new(),
            is_downloading_image: false,
        };
        instance.reset_settings();
        instance
    }

    /// Resets the snapshot to the defaults and the history to a single entry
    /// holding them, so that the first undo after one edit returns to the
    /// defaults rather than to nothing.
    fn reset_settings(&mut self)
        ensures
            final(self).spec_state() == State::spec_default(),
            final(self).spec_history() == HistoryModel::<State>::empty().pushed(
                State::spec_default(),
            ),
            final(self).spec_img() == old(self).spec_img(),
            final(self).spec_computed() == old(self).spec_computed(),
            final(self).spec_downloading() == old(self).spec_downloading(),
    {
        self.state = State::default();
        self.history.reset();
        self.history.push(self.state);
    }

    /// Runs transform, encode and decode for the current snapshot against the
    /// loaded image, producing the hash and a square preview of exactly the
    /// requested size; short-circuits on the first failure. The transform
    /// stages cannot fail, a valid snapshot cannot fail to encode, a freshly
    /// encoded hash always decodes, and a decoded buffer always matches the
    /// requested size, so the only reachable failure is a missing source
    /// image.
    pub fn compute_blurhash(&self, size: u32) -> (r: Result<(String, Vec<u8>), ComputeError>)
        requires
            self.wf(),
            4 * size * size <= u32::MAX,
        ensures
            match r {
                Ok((hash, preview)) => self.spec_img() matches Some(img) && Option::Some(
                    (hash@, preview@),
                ) == spec_outcome(img, self.spec_state(), size as int) && preview@.len() == 4
                    * size * size,
                Err(e) => e == ComputeError::NoSourceImage && self.spec_img() is None,
            },
    {
        let img = match &self.img {
            Option::Some(img) => img,
            Option::None => {
                return Err(ComputeError::NoSourceImage);
            },
        };

        let buffer = pipeline::transform(&img.pixels, img.width, img.height, &self.state);

        let (x, y) = self.state.components;
        let hash = match codec::encode(x, y, img.width, img.height, &buffer) {
            Ok(hash) => hash,
            Err(e) => {
                return Err(e);
            },
        };

        proof {
            if size >= 1 {
                assert(4 * size <= 4 * size * size) by (nonlinear_arith)
                    requires
                        size >= 1,
                ;
            }
        }
        let decoded = match codec::decode(&hash, size, size) {
            Ok(pixels) => pixels,
            Err(e) => {
                return Err(e);
            },
        };

        // The codec hands back four bytes per requested pixel, so this
        // consistency check cannot fail.
        let expected: usize = 4 * (size as usize) * (size as usize);
        if decoded.len() != expected {
            return Err(ComputeError::PreviewMismatch);
        }
        Ok((hash, decoded))
    }

    /// Recomputes at preview size and replaces the cached result. With no
    /// loaded image the previous result stays in place and the missing image
    /// is reported back, never fatally.
    pub fn compute_and_apply_blurhash(&mut self) -> (r: Result<(), ComputeError>)
        requires
            old(self).wf(),
        ensures
            final(self).wf(),
            final(self).spec_img() == old(self).spec_img(),
            final(self).spec_state() == old(self).spec_state(),
            final(self).spec_history() == old(self).spec_history(),
            final(self).spec_downloading() == old(self).spec_downloading(),
            match old(self).spec_img() {
                Option::None => final(self).spec_computed() == old(self).spec_computed() && r
                    == Err::<(), ComputeError>(ComputeError::NoSourceImage),
                Option::Some(img) => spec_outcome(img, old(self).spec_state(), PREVIEW_SIZE as int)
                    matches Some(c) && final(self).spec_computed() == Option::Some(c) && r is Ok,
            },
    {
        if self.img.is_none() {
            return Err(ComputeError::NoSourceImage);
        }

        match self.compute_blurhash(PREVIEW_SIZE) {
            Ok(result) => {
                self.computed = Option::Some(result);
                Ok(())
            },
            Err(e) => Err(e),
        }
    }

    /// Replaces the source image, resets the snapshot and the history to the
    /// defaults (old parameter history is meaningless for a different image),
    /// and computes the initial preview. This is the only path that clears
    /// history.
    pub fn load_image(&mut self, pixels: Vec<u8>, width: u32, height: u32) -> (r: Result<
        (),
        ComputeError,
    >)
        requires
            old(self).wf(),
            width >= 1,
            height >= 1,
            pixels@.len() == 4 * width * height,
            4 * width * height <= u32::MAX,
        ensures
            final(self).wf(),
            final(self).spec_img() matches Some(img) && img.pixels@ == pixels@ && img.width
                == width && img.height == height,
            final(self).spec_state() == State::spec_default(),
            final(self).spec_history() == HistoryModel::<State>::empty().pushed(
                State::spec_default(),
            ),
            final(self).spec_downloading() == old(self).spec_downloading(),
            spec_outcome_of(
                pixels@,
                width as int,
                height as int,
                State::spec_default(),
                PREVIEW_SIZE as int,
            ) matches Some(c) && final(self).spec_computed() == Option::Some(c),
            r is Ok,
    {
        self.img = Option::Some(SourceImage { pixels, width, height });
        self.reset_settings();
        self.compute_and_apply_blurhash()
    }

    /// Whether a dropped or picked file's extension names a supported image
    /// type. The shell extracts the extension and lowercases it before
    /// asking.
    pub fn is_allowed_extension(extension: &String) -> (r: bool)
        ensures
            r <==> (extension@ == "bmp"@ || extension@ == "gif"@ || extension@ == "jpg"@
                || extension@ == "jpeg"@ || extension@ == "png"@ || extension@ == "tga"@
                || extension@ == "tiff"@ || extension@ == "webp"@),
    {
        *extension == "bmp".to_owned() || *extension == "gif".to_owned() || *extension
            == "jpg".to_owned() || *extension == "jpeg".to_owned() || *extension
            == "png".to_owned() || *extension == "tga".to_owned() || *extension
            == "tiff".to_owned() || *extension == "webp".to_owned()
    }

    /// Ends a pending random-image download; the shell calls this when the
    /// download finishes, before handing a successful result to `load_image`.
    pub fn finish_download(&mut self)
        requires
            old(self).wf(),
        ensures
            final(self).wf(),
            !final(self).spec_downloading(),
            final(self).spec_img() == old(self).spec_img(),
            final(self).spec_computed() == old(self).spec_computed(),
            final(self).spec_state() == old(self).spec_state(),
            final(self).spec_history() == old(self).spec_history(),
    {
        self.is_downloading_image = false;
    }

    /// A one-off higher-fidelity render at a caller-specified square size,
    /// using the current (possibly uncommitted) snapshot, without touching
    /// history or the cached result.
    pub fn export(&self, size: u32) -> (r: Result<(String, Vec<u8>), ComputeError>)
        requires
            self.wf(),
            4 * size * size <= u32::MAX,
        ensures
            match r {
                Ok((hash, preview)) => self.spec_img() matches Some(img) && Option::Some(
                    (hash@, preview@),
                ) == spec_outcome(img, self.spec_state(), size as int) && preview@.len() == 4
                    * size * size,
                Err(e) => e == ComputeError::NoSourceImage && self.spec_img() is None,
            },
    {
        self.compute_blurhash(size)
    }

    /// The single dispatch over user intents: field updates mutate the
    /// snapshot and recompute, commits push to history, undo and redo move
    /// the cursor and recompute, and everything the core cannot do itself
    /// comes back as a directive for the shell.
    pub fn handle_interaction(&mut self, interaction: Interaction) -> (d: Directive)
        requires
            old(self).wf(),
            interaction.valid(),
        ensures
            final(self).wf(),
            final(self).spec_img() == old(self).spec_img(),
            match interaction {
                Interaction::Undo => {
                    &&& final(self).spec_history() == old(self).spec_history().undone()
                    &&& final(self).spec_downloading() == old(self).spec_downloading()
                    &&& match old(self).spec_history().undo_result() {
                        Option::Some(s) => final(self).spec_state() == s && preview_applied(
                            old(self).spec_img(),
                            s,
                            old(self).spec_computed(),
                            final(self).spec_computed(),
                            d,
                        ),
                        Option::None => final(self).spec_state() == old(self).spec_state()
                            && final(self).spec_computed() == old(self).spec_computed() && d
                            == Directive::Idle,
                    }
                },
                Interaction::Redo => {
                    &&& final(self).spec_history() == old(self).spec_history().redone()
                    &&& final(self).spec_downloading() == old(self).spec_downloading()
                    &&& match old(self).spec_history().redo_result() {
                        Option::Some(s) => final(self).spec_state() == s && preview_applied(
                            old(self).spec_img(),
                            s,
                            old(self).spec_computed(),
                            final(self).spec_computed(),
                            d,
                        ),
                        Option::None => final(self).spec_state() == old(self).spec_state()
                            && final(self).spec_computed() == old(self).spec_computed() && d
                            == Directive::Idle,
                    }
                },
                Interaction::SelectImage => final(self).unchanged_from(old(self)) && d
                    == Directive::PickImageFile,
                Interaction::ExportImage => final(self).unchanged_from(old(self)) && d == (
                if old(self).spec_img() is Some {
                    Directive::PromptExport
                } else {
                    Directive::Idle
                }),
                Interaction::CopyToClipboard => final(self).unchanged_from(old(self)) && (match old(
                    self,
                ).spec_computed() {
                    Option::Some(c) => d matches Directive::CopyToClipboard(hash) && hash@ == c.0,
                    Option::None => d == Directive::Idle,
                }),
                Interaction::ImFeelingLucky => {
                    &&& final(self).spec_state() == old(self).spec_state()
                    &&& final(self).spec_history() == old(self).spec_history()
                    &&& final(self).spec_computed() == old(self).spec_computed()
                    &&& final(self).spec_downloading()
                    &&& d == Directive::DownloadRandomImage
                },
                Interaction::OpenProjectRepo => final(self).unchanged_from(old(self)) && d
                    == Directive::OpenProjectRepo,
                Interaction::SaveParameters => {
                    &&& final(self).spec_history() == old(self).spec_history().pushed(
                        old(self).spec_state(),
                    )
                    &&& final(self).spec_state() == old(self).spec_state()
                    &&& final(self).spec_computed() == old(self).spec_computed()
                    &&& final(self).spec_downloading() == old(self).spec_downloading()
                    &&& d == Directive::Idle
                },
                Interaction::Ignored => final(self).unchanged_from(old(self)) && d == Directive::Idle,
                _ => {
                    &&& final(self).spec_state() == interaction.applied_to(old(self).spec_state())
                    &&& final(self).spec_history() == old(self).spec_history()
                    &&& final(self).spec_downloading() == old(self).spec_downloading()
                    &&& preview_applied(
                        old(self).spec_img(),
                        final(self).spec_state(),
                        old(self).spec_computed(),
                        final(self).spec_computed(),
                        d,
                    )
                },
            },
    {
        match interaction {
            Interaction::Undo => {
                let entry = match self.history.undo() {
                    Option::Some(s) => Option::Some(*s),
                    Option::None => Option::None,
                };
                match entry {
                    Option::Some(s) => {
                        self.state = s;
                        let r = self.compute_and_apply_blurhash();
                        directive_of(r)
                    },
                    Option::None => Directive::Idle,
                }
            },
            Interaction::Redo => {
                let entry = match self.history.redo() {
                    Option::Some(s) => Option::Some(*s),
                    Option::None => Option::None,
                };
                match entry {
                    Option::Some(s) => {
                        self.state = s;
                        let r = self.compute_and_apply_blurhash();
                        directive_of(r)
                    },
                    Option::None => Directive::Idle,
                }
            },
            Interaction::SelectImage => Directive::PickImageFile,
            Interaction::ExportImage => {
                if self.img.is_some() {
                    Directive::PromptExport
                } else {
                    Directive::Idle
                }
            },
            Interaction::CopyToClipboard => {
                match &self.computed {
                    Option::Some((hash, _)) => Directive::CopyToClipboard(hash.clone()),
                    Option::None => Directive::Idle,
                }
            },
            Interaction::ImFeelingLucky => {
                self.is_downloading_image = true;
                Directive::DownloadRandomImage
            },
            Interaction::OpenProjectRepo => Directive::OpenProjectRepo,
            Interaction::SaveParameters => {
                self.history.push(self.state);
                Directive::Idle
            },
            Interaction::UpX(x) => {
                self.state.components.0 = x;
                let r = self.compute_and_apply_blurhash();
                directive_of(r)
            },
            Interaction::UpY(y) => {
                self.state.components.1 = y;
                let r = self.compute_and_apply_blurhash();
                directive_of(r)
            },
            Interaction::UpBlur(blur) => {
                self.state.blur = blur;
                let r = self.compute_and_apply_blurhash();
                directive_of(r)
            },
            Interaction::UpHue(hue) => {
                self.state.hue_rotate = hue;
                let r = self.compute_and_apply_blurhash();
                directive_of(r)
            },
            Interaction::UpBrightness(brightness) => {
                self.state.brightness = brightness;
                let r = self.compute_and_apply_blurhash();
                directive_of(r)
            },
            Interaction::UpContrast(contrast) => {
                self.state.contrast = contrast;
                let r = self.compute_and_apply_blurhash();
                directive_of(r)
            },
            Interaction::Ignored => Directive::Idle,
        }
    }

    /// Everything the contracts observe is as it was in `other`.
    pub open spec fn unchanged_from(&self, other: &BlurThing) -> bool {
        &&& self.spec_img() == other.spec_img()
        &&& self.spec_computed() == other.spec_computed()
        &&& self.spec_state() == other.spec_state()
        &&& self.spec_history() == other.spec_history()
        &&& self.spec_downloading() == other.spec_downloading()
    }

    /// The current snapshot.
    pub fn state(&self) -> (r: State)
        ensures
            r == self.spec_state(),
    {
        self.state
    }

    /// The latest computed hash and preview, if any.
    pub fn computed(&self) -> (r: Option<&(String, Vec<u8>)>)
        ensures
            match r {
                Option::Some(c) => self.spec_computed() == Option::Some((c.0@, c.1@)),
                Option::None => self.spec_computed() is None,
            },
    {
        self.computed.as_ref()
    }

    /// Whether a source image is loaded.
    pub fn has_image(&self) -> (r: bool)
        ensures
            r == (self.spec_img() is Some),
    {
        self.img.is_some()
    }

    /// Whether a random-image download is pending.
    pub fn is_downloading(&self) -> (r: bool)
        ensures
            r == self.spec_downloading(),
    {
        self.is_downloading_image
    }
}

/// Maps a recomputation result to what the shell must do: nothing on success,
/// report the failure otherwise.
fn directive_of(r: Result<(), ComputeError>) -> (d: Directive)
    ensures
        match r {
            Ok(_) => d == Directive::Idle,
            Err(e) => d == Directive::ReportError(e),
        },
{
    match r {
        Ok(_) => Directive::Idle,
        Err(e) => Directive::ReportError(e),
    }
}

} // verus!
