//! Global readiness across the four categories, and the one-shot screen
//! transition that it gates.

use vstd::prelude::*;
use crate::assets::{ImageAssets, SfxAssets, SoundtrackAssets, UiAssets};
use crate::store::BackingStore;
use crate::table::{all_present, lemma_all_present_monotonic};

verus! {

/// The two screens the loading gate moves between: the loading phase itself,
/// and the title screen it transitions to once every asset has loaded.
#[derive(Clone, Copy, Debug, PartialEq, Eq, Structural)]
pub enum Screen {
    Loading,
    Title,
}

/// Global readiness: the logical AND across the independently checked
/// categories. Sound effects and soundtracks share one audio store; there is
/// no partial readiness.
pub open spec fn spec_global_ready(
    images: Seq<u64>,
    sfxs: Seq<u64>,
    soundtracks: Seq<u64>,
    ui: Seq<u64>,
    image_store: Set<u64>,
    audio_store: Set<u64>,
    ui_store: Set<u64>,
) -> bool {
    &&& all_present(images, image_store)
    &&& all_present(sfxs, audio_store)
    &&& all_present(soundtracks, audio_store)
    &&& all_present(ui, ui_store)
}

/// One polling tick's readiness computation: true iff every category reports
/// all of its handles present on this same poll.
pub fn global_ready(
    images: &ImageAssets,
    sfxs: &SfxAssets,
    soundtracks: &SoundtrackAssets,
    ui: &UiAssets,
    image_store: &BackingStore,
    audio_store: &BackingStore,
    ui_store: &BackingStore,
) -> (r: bool)
    ensures
        r == spec_global_ready(
            images@,
            sfxs@,
            soundtracks@,
            ui.handles(),
            image_store@,
            audio_store@,
            ui_store@,
        ),
{
    images.all_loaded(image_store) && sfxs.all_loaded(audio_store)
        && soundtracks.all_loaded(audio_store) && ui.all_loaded(ui_store)
}

/// Global readiness is monotonic: the stores only gain identifiers during a
/// loading phase (no asset unloading occurs), so once readiness is true it
/// stays true and never needs to be re-evaluated.
pub proof fn lemma_global_ready_monotonic(
    images: Seq<u64>,
    sfxs: Seq<u64>,
    soundtracks: Seq<u64>,
    ui: Seq<u64>,
    image_before: Set<u64>,
    audio_before: Set<u64>,
    ui_before: Set<u64>,
    image_after: Set<u64>,
    audio_after: Set<u64>,
    ui_after: Set<u64>,
)
    requires
        spec_global_ready(images, sfxs, soundtracks, ui, image_before, audio_before, ui_before),
        image_before.subset_of(image_after),
        audio_before.subset_of(audio_after),
        ui_before.subset_of(ui_after),
    ensures
        spec_global_ready(images, sfxs, soundtracks, ui, image_after, audio_after, ui_after),
{
    lemma_all_present_monotonic(images, image_before, image_after);
    lemma_all_present_monotonic(sfxs, audio_before, audio_after);
    lemma_all_present_monotonic(soundtracks, audio_before, audio_after);
    lemma_all_present_monotonic(ui, ui_before, ui_after);
}

/// Which screen is showing, and the single step a poll may take: a poll
/// can move `Loading` to `Title` once, and after that every further poll
/// leaves the screen alone.
pub struct ScreenState {
    current: Screen,
}

impl View for ScreenState {
    type V = Screen;

    /// The screen the machine currently stands in.
    closed spec fn view(&self) -> Screen {
        self.current
    }
}

impl ScreenState {
    /// A loading phase begins in `Screen::Loading`.
    pub fn new() -> (s: Self)
        ensures
            s@ == Screen::Loading,
    {
        ScreenState { current: Screen::Loading }
    }

    /// The screen the machine currently stands in.
    pub fn screen(&self) -> (s: Screen)
        ensures
            s == self@,
    {
        self.current
    }

    /// One polling tick. The transition fires iff the screen is still
    /// `Loading` and every category reported ready on this poll; it then
    /// moves to `Title` and can never fire again. An asset that never loads
    /// leaves the machine in `Loading` indefinitely: there is no timeout,
    /// retry, or failure path.
    pub fn poll(&mut self, all_loaded: bool) -> (fired: bool)
        ensures
            fired == (old(self)@ == Screen::Loading && all_loaded),
            final(self)@ == (if fired {
                Screen::Title
            } else {
                old(self)@
            }),
    {
        match self.current {
            Screen::Loading => {
                if all_loaded {
                    self.current = Screen::Title;
                    true
                } else {
                    false
                }
            },
            Screen::Title => false,
        }
    }
}

/// One full tick of the loading screen: ask every category whether all of
/// its handles are present, and move the screen forward on the first tick on
/// which the answer is yes across the board. Returns whether the transition
/// fired on this tick; it fires at most once over the life of `screen`.
pub fn check_all_loaded(
    images: &ImageAssets,
    sfxs: &SfxAssets,
    soundtracks: &SoundtrackAssets,
    ui: &UiAssets,
    image_store: &BackingStore,
    audio_store: &BackingStore,
    ui_store: &BackingStore,
    screen: &mut ScreenState,
) -> (fired: bool)
    ensures
        fired == (old(screen)@ == Screen::Loading && spec_global_ready(
            images@,
            sfxs@,
            soundtracks@,
            ui.handles(),
            image_store@,
            audio_store@,
            ui_store@,
        )),
        final(screen)@ == (if fired {
            Screen::Title
        } else {
            old(screen)@
        }),
{
    let ready = global_ready(images, sfxs, soundtracks, ui, image_store, audio_store, ui_store);
    screen.poll(ready)
}

} // verus!
