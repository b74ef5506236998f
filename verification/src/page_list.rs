//! The page list: an ordered, append-only table of (page number, thumbnail)
//! rows, shared between the list view and the command handlers.

use vstd::prelude::*;

verus! {

/// Side length of the square bounding box that every thumbnail is scaled
/// into by the image decoder, preserving aspect ratio.
pub const THUMBNAIL_BOX: u32 = 100;

/// A decoded, downscaled bitmap, as the core sees it: the pixel data itself
/// stays with the unverified shell, keyed by `handle`.
#[derive(Clone, Copy, PartialEq, Eq, Structural, Debug)]
pub struct Thumbnail {
    /// Key under which the shell holds the decoded pixel data.
    pub handle: u64,
    /// Width in pixels, at most `THUMBNAIL_BOX`.
    pub width: u32,
    /// Height in pixels, at most `THUMBNAIL_BOX`.
    pub height: u32,
}

impl Thumbnail {
    /// A thumbnail is well-formed when it is non-empty and fits the
    /// decoder's bounding box.
    pub open spec fn wf(self) -> bool {
        1 <= self.width <= THUMBNAIL_BOX && 1 <= self.height <= THUMBNAIL_BOX
    }

    /// Accepts exactly the dimensions a bounded decode can produce.
    pub fn try_new(handle: u64, width: u32, height: u32) -> (r: Option<Thumbnail>)
        ensures
            r is Some <==> (1 <= width <= THUMBNAIL_BOX && 1 <= height <= THUMBNAIL_BOX),
            r is Some ==> r->Some_0 == (Thumbnail { handle, width, height }) && r->Some_0.wf(),
    {
        if 1 <= width && width <= THUMBNAIL_BOX && 1 <= height && height <= THUMBNAIL_BOX {
            Some(Thumbnail { handle, width, height })
        } else {
            None
        }
    }
}

/// One row of the page list.
#[derive(Clone, Copy, PartialEq, Eq, Structural, Debug)]
pub struct PageRow {
    /// The page number shown in the first column.
    pub page_index: u32,
    /// The thumbnail shown in the second column.
    pub thumbnail: Thumbnail,
}

impl PageRow {
    pub open spec fn wf(self) -> bool {
        self.thumbnail.wf()
    }
}

/// The ordered table of page rows backing the list view. Within this core it
/// only ever grows: rows are appended and never removed or rewritten, so the
/// view bound to it needs no other change notification than the append
/// itself.
pub struct PageListModel {
    rows: Vec<PageRow>,
}

impl View for PageListModel {
    type V = Seq<PageRow>;

    closed spec fn view(&self) -> Seq<PageRow> {
        self.rows@
    }
}

impl PageListModel {
    /// An empty model, as configured at startup.
    pub fn new() -> (m: PageListModel)
        ensures
            m@ == Seq::<PageRow>::empty(),
    {
        PageListModel { rows: Vec::new() }
    }

    /// Appends a row and returns its position. Always succeeds, and touches
    /// no existing row.
    pub fn append(&mut self, page_index: u32, thumbnail: Thumbnail) -> (pos: usize)
        ensures
            final(self)@ == old(self)@.push(PageRow { page_index, thumbnail }),
            pos == old(self)@.len(),
    {
        let pos = self.rows.len();
        self.rows.push(PageRow { page_index, thumbnail });
        pos
    }

    pub fn len(&self) -> (n: usize)
        ensures
            n == self@.len(),
    {
        self.rows.len()
    }

    pub fn row(&self, i: usize) -> (r: PageRow)
        requires
            i < self@.len(),
        ensures
            r == self@[i as int],
    {
        self.rows[i]
    }
}

} // verus!
