use vstd::prelude::*;

verus! {

/// What an image shows, which decides how it is drawn.
#[derive(Clone, Copy, PartialEq, Eq, Structural, Debug)]
pub enum ImageKind {
    Segmentation,
    Color,
    Depth,
}

/// Number of images per image kind.
#[derive(Clone, Copy, PartialEq, Eq, Structural, Debug, Default)]
pub struct ImageCounts {
    pub segmentation: usize,
    pub color: usize,
    pub depth: usize,
}

impl ImageCounts {
    /// The count kept for `kind`.
    pub open spec fn count_of(&self, kind: ImageKind) -> usize {
        match kind {
            ImageKind::Segmentation => self.segmentation,
            ImageKind::Color => self.color,
            ImageKind::Depth => self.depth,
        }
    }

    /// Counts one more image of `kind`.
    pub fn record(&mut self, kind: ImageKind)
        requires
            old(self).count_of(kind) < usize::MAX,
        ensures
            final(self).count_of(kind) == old(self).count_of(kind) + 1,
            forall|k: ImageKind| k != kind ==> final(self).count_of(k) == old(self).count_of(k),
    {
        match kind {
            ImageKind::Segmentation => self.segmentation = self.segmentation + 1,
            ImageKind::Color => self.color = self.color + 1,
            ImageKind::Depth => self.depth = self.depth + 1,
        }
    }

    /// Whether an image of `kind` should be drawn translucent by default:
    /// images are drawn segmentation, then color, then depth, front to back,
    /// and one is translucent when an image of a kind behind it was seen.
    /// Depth images support no opacity.
    pub fn draws_translucent(&self, kind: ImageKind) -> (r: bool)
        ensures
            r == match kind {
                ImageKind::Segmentation => self.color + self.depth > 0,
                ImageKind::Color => self.depth > 0,
                ImageKind::Depth => false,
            },
    {
        match kind {
            ImageKind::Segmentation => self.color > 0 || self.depth > 0,
            ImageKind::Color => self.depth > 0,
            ImageKind::Depth => false,
        }
    }
}

/// The unit in which a size is given.
#[derive(Clone, Copy, PartialEq, Eq, Structural, Debug)]
pub enum AutoSizeUnit {
    Auto,
    UiPoints,
    World,
}

impl AutoSizeUnit {
    /// The name shown for the unit.
    pub fn label(&self) -> (r: &'static str)
        ensures
            r@ == match self {
                AutoSizeUnit::Auto => "Auto"@,
                AutoSizeUnit::UiPoints => "UI points"@,
                AutoSizeUnit::World => "Scene units"@,
            },
    {
        match self {
            AutoSizeUnit::Auto => "Auto",
            AutoSizeUnit::UiPoints => "UI points",
            AutoSizeUnit::World => "Scene units",
        }
    }
}

/// A path to an entity in the store.
pub struct EntityPath(pub String);

impl EntityPath {
    pub fn new(path: String) -> (r: EntityPath)
        ensures
            r.0 == path,
    {
        EntityPath(path)
    }

    /// The path's text.
    pub fn as_str(&self) -> (r: &str)
        ensures
            r@ == self.0@,
    {
        self.0.as_str()
    }
}

} // verus!
