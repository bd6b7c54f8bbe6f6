//! The four asset categories tracked during the loading phase.
//!
//! Each category owns a table mapping its logical identifiers to the handle
//! identifiers the loader returned for them, and exposes the per-category
//! readiness predicate over a backing store.

use vstd::prelude::*;
use crate::store::BackingStore;
use crate::table::{all_present, CategoryTable};

verus! {

/// Logical identifiers of the image assets.
#[derive(Clone, Copy, Debug, PartialEq, Eq, Structural)]
pub enum ImageAsset {
    Ducky,
}

/// Position of an image identifier in the image category table.
pub open spec fn image_index(key: ImageAsset) -> int {
    match key {
        ImageAsset::Ducky => 0,
    }
}

/// The image category: one handle per `ImageAsset`, requested from the
/// loader when the loading phase is entered and fixed thereafter.
pub struct ImageAssets {
    table: CategoryTable,
}

impl View for ImageAssets {
    type V = Seq<u64>;

    /// The handles of the category, in logical-identifier order.
    closed spec fn view(&self) -> Seq<u64> {
        self.table@
    }
}

impl ImageAssets {
    /// The table holds exactly one handle per logical identifier.
    pub open spec fn wf(&self) -> bool {
        self@.len() == 1
    }

    /// Record the handles the loader returned, one per logical identifier.
    pub fn new(ducky: u64) -> (a: Self)
        ensures
            a@ == seq![ducky],
            a.wf(),
    {
        let mut table = CategoryTable::new();
        table.insert(ducky);
        proof {
            assert(table@ =~= seq![ducky]);
        }
        ImageAssets { table }
    }

    /// The handle recorded for `key`.
    pub fn handle(&self, key: ImageAsset) -> (h: u64)
        requires
            self.wf(),
        ensures
            h == self@[image_index(key)],
    {
        match key {
            ImageAsset::Ducky => self.table.handle_at(0),
        }
    }

    /// True iff every image handle is present in the backing store.
    pub fn all_loaded(&self, assets: &BackingStore) -> (r: bool)
        ensures
            r == all_present(self@, assets@),
    {
        self.table.all_loaded(assets)
    }
}

/// Logical identifiers of the sound-effect assets.
#[derive(Clone, Copy, Debug, PartialEq, Eq, Structural)]
pub enum SfxAsset {
    ButtonHover,
    ButtonPress,
    Step1,
    Step2,
    Step3,
    Step4,
}

/// Position of a sound-effect identifier in its category table.
pub open spec fn sfx_index(key: SfxAsset) -> int {
    match key {
        SfxAsset::ButtonHover => 0,
        SfxAsset::ButtonPress => 1,
        SfxAsset::Step1 => 2,
        SfxAsset::Step2 => 3,
        SfxAsset::Step3 => 4,
        SfxAsset::Step4 => 5,
    }
}

/// The sound-effect category: one handle per `SfxAsset`.
pub struct SfxAssets {
    table: CategoryTable,
}

impl View for SfxAssets {
    type V = Seq<u64>;

    /// The handles of the category, in logical-identifier order.
    closed spec fn view(&self) -> Seq<u64> {
        self.table@
    }
}

impl SfxAssets {
    /// The table holds exactly one handle per logical identifier.
    pub open spec fn wf(&self) -> bool {
        self@.len() == 6
    }

    /// Record the handles the loader returned, one per logical identifier.
    pub fn new(
        button_hover: u64,
        button_press: u64,
        step1: u64,
        step2: u64,
        step3: u64,
        step4: u64,
    ) -> (a: Self)
        ensures
            a@ == seq![button_hover, button_press, step1, step2, step3, step4],
            a.wf(),
    {
        let mut table = CategoryTable::new();
        table.insert(button_hover);
        table.insert(button_press);
        table.insert(step1);
        table.insert(step2);
        table.insert(step3);
        table.insert(step4);
        proof {
            assert(table@ =~= seq![button_hover, button_press, step1, step2, step3, step4]);
        }
        SfxAssets { table }
    }

    /// The handle recorded for `key`.
    pub fn handle(&self, key: SfxAsset) -> (h: u64)
        requires
            self.wf(),
        ensures
            h == self@[sfx_index(key)],
    {
        match key {
            SfxAsset::ButtonHover => self.table.handle_at(0),
            SfxAsset::ButtonPress => self.table.handle_at(1),
            SfxAsset::Step1 => self.table.handle_at(2),
            SfxAsset::Step2 => self.table.handle_at(3),
            SfxAsset::Step3 => self.table.handle_at(4),
            SfxAsset::Step4 => self.table.handle_at(5),
        }
    }

    /// True iff every sound-effect handle is present in the backing store.
    pub fn all_loaded(&self, assets: &BackingStore) -> (r: bool)
        ensures
            r == all_present(self@, assets@),
    {
        self.table.all_loaded(assets)
    }
}

/// Logical identifiers of the soundtrack assets.
#[derive(Clone, Copy, Debug, PartialEq, Eq, Structural)]
pub enum SoundtrackAsset {
    Credits,
    Gameplay,
}

/// Position of a soundtrack identifier in its category table.
pub open spec fn soundtrack_index(key: SoundtrackAsset) -> int {
    match key {
        SoundtrackAsset::Credits => 0,
        SoundtrackAsset::Gameplay => 1,
    }
}

/// The soundtrack category: one handle per `SoundtrackAsset`.
pub struct SoundtrackAssets {
    table: CategoryTable,
}

impl View for SoundtrackAssets {
    type V = Seq<u64>;

    /// The handles of the category, in logical-identifier order.
    closed spec fn view(&self) -> Seq<u64> {
        self.table@
    }
}

impl SoundtrackAssets {
    /// The table holds exactly one handle per logical identifier.
    pub open spec fn wf(&self) -> bool {
        self@.len() == 2
    }

    /// Record the handles the loader returned, one per logical identifier.
    pub fn new(credits: u64, gameplay: u64) -> (a: Self)
        ensures
            a@ == seq![credits, gameplay],
            a.wf(),
    {
        let mut table = CategoryTable::new();
        table.insert(credits);
        table.insert(gameplay);
        proof {
            assert(table@ =~= seq![credits, gameplay]);
        }
        SoundtrackAssets { table }
    }

    /// The handle recorded for `key`.
    pub fn handle(&self, key: SoundtrackAsset) -> (h: u64)
        requires
            self.wf(),
        ensures
            h == self@[soundtrack_index(key)],
    {
        match key {
            SoundtrackAsset::Credits => self.table.handle_at(0),
            SoundtrackAsset::Gameplay => self.table.handle_at(1),
        }
    }

    /// True iff every soundtrack handle is present in the backing store.
    pub fn all_loaded(&self, assets: &BackingStore) -> (r: bool)
        ensures
            r == all_present(self@, assets@),
    {
        self.table.all_loaded(assets)
    }
}

/// The UI-material category: a single health-bar material handle.
pub struct UiAssets {
    /// The handle of the health-bar UI material.
    pub health_bar: u64,
}

impl UiAssets {
    /// The handles of the category.
    pub open spec fn handles(&self) -> Seq<u64> {
        seq![self.health_bar]
    }

    /// Record the handle the material store returned.
    pub fn new(health_bar: u64) -> (a: Self)
        ensures
            a.health_bar == health_bar,
    {
        UiAssets { health_bar }
    }

    /// True iff the health-bar material is present in the backing store.
    pub fn all_loaded(&self, assets: &BackingStore) -> (r: bool)
        ensures
            r == all_present(self.handles(), assets@),
            r == assets@.contains(self.health_bar),
    {
        let r = assets.contains(self.health_bar);
        proof {
            assert(self.handles()[0] == self.health_bar);
        }
        r
    }
}

} // verus!
