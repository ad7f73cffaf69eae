use vstd::prelude::*;
use crate::assets::{AssetDecodeError, AssetRegistry, FontHandle, ImageHandle};
use crate::style::Color;

verus! {

/// A position, in pixels from the top left corner, and an optional size;
/// without a size the shape, image or text takes its natural size.
#[derive(Clone, Copy, Debug, PartialEq, Eq)]
pub struct Area {
    pub x: u32,
    pub y: u32,
    pub size: Option<(u32, u32)>,
}

/// The outline of what is drawn. The first field of each variant is the
/// stroke width: 0 fills the shape, a positive width outlines it.
#[derive(Clone, Copy, Debug, PartialEq, Eq)]
pub enum Shape {
    /// Width and height.
    Rectangle(u32, (u32, u32)),
    /// Width and height, then the corner radius.
    RoundedRectangle(u32, (u32, u32), u32),
    /// The end point, as an offset to the right and downwards from the
    /// area's position, where the line starts.
    Line(u32, (u32, u32)),
}

/// A run of text and how it is set.
#[derive(Clone, Debug, PartialEq, Eq)]
pub struct TextStyle {
    pub text: String,
    pub color: Color,
    pub alpha: u8,
    /// The width at which lines wrap; `None` never wraps.
    pub width: Option<u32>,
    pub size: u32,
    pub line_height: u32,
    /// The face to set the text in; `None` where no face was loaded.
    pub font: Option<FontHandle>,
}

/// One drawing command of a frame.
#[derive(Clone, Debug, PartialEq, Eq)]
pub enum CanvasItem {
    /// A shape filled or stroked in a color, with its alpha.
    Shape(Area, Shape, Color, u8),
    /// An image fitted into a shape; `None` where no image was loaded.
    Image(Area, Shape, Option<ImageHandle>),
    Text(Area, TextStyle),
}

impl CanvasItem {
    /// Whether the item needs an image or font that was never loaded.
    pub open spec fn asset_missing(&self) -> bool {
        match self {
            CanvasItem::Shape(..) => false,
            CanvasItem::Image(_, _, h) => h is None,
            CanvasItem::Text(_, style) => style.font is None,
        }
    }

    /// Whether every handle that the item holds was issued by `reg`.
    pub open spec fn belongs_to(&self, reg: AssetRegistry) -> bool {
        match self {
            CanvasItem::Shape(..) => true,
            CanvasItem::Image(_, _, h) => match h {
                Some(h) => reg.issued_image(*h),
                None => true,
            },
            CanvasItem::Text(_, style) => match style.font {
                Some(f) => reg.issued_font(f),
                None => true,
            },
        }
    }
}

/// What a frame hands to the renderer: the background color, painted
/// beneath everything, and the items, painted in order, each over the ones
/// before it.
#[derive(Debug)]
pub struct CommandList {
    pub background: Option<Color>,
    pub items: Vec<CanvasItem>,
}

impl CommandList {
    pub fn new() -> (r: CommandList)
        ensures
            r.background is None,
            r.items@ == Seq::<CanvasItem>::empty(),
    {
        CommandList { background: None, items: Vec::new() }
    }

    pub fn len(&self) -> (r: usize)
        ensures
            r == self.items@.len(),
    {
        self.items.len()
    }
}

/// The list after one successful draw of `item`: appended at the end, or
/// left out where its image or font is missing.
pub open spec fn draw_step(items: Seq<CanvasItem>, item: CanvasItem) -> Seq<CanvasItem> {
    if item.asset_missing() {
        items
    } else {
        items.push(item)
    }
}

/// The list after successful draws of `calls`, in order, starting from `items`.
pub open spec fn draws(items: Seq<CanvasItem>, calls: Seq<CanvasItem>) -> Seq<CanvasItem>
    decreases calls.len(),
{
    if calls.len() == 0 {
        items
    } else {
        draw_step(draws(items, calls.drop_last()), calls.last())
    }
}

/// The items of `calls` whose assets are all present, in their order.
pub open spec fn kept_items(calls: Seq<CanvasItem>) -> Seq<CanvasItem> {
    calls.filter(|c: CanvasItem| !c.asset_missing())
}

/// Drawing keeps the order of the calls: the list after a run of successful
/// draws is the list before it followed by the drawn items in call order,
/// those with a missing asset left out; when none is missing, the items
/// follow exactly as called.
pub proof fn lemma_draw_order_kept(start: Seq<CanvasItem>, calls: Seq<CanvasItem>)
    ensures
        draws(start, calls) == start + kept_items(calls),
        (forall|i: int| 0 <= i < calls.len() ==> !(#[trigger] calls[i]).asset_missing())
            ==> draws(start, calls) == start + calls,
    decreases calls.len(),
{
    if calls.len() > 0 {
        lemma_draw_order_kept(start, calls.drop_last());
        lemma_kept_step(calls);
        if !calls.last().asset_missing() {
            assert((start + kept_items(calls.drop_last())).push(calls.last())
                =~= start + kept_items(calls.drop_last()).push(calls.last()));
        }
    }
    if forall|i: int| 0 <= i < calls.len() ==> !(#[trigger] calls[i]).asset_missing() {
        lemma_all_kept(calls);
    }
}

proof fn lemma_kept_step(calls: Seq<CanvasItem>)
    requires
        calls.len() > 0,
    ensures
        kept_items(calls) == if calls.last().asset_missing() {
            kept_items(calls.drop_last())
        } else {
            kept_items(calls.drop_last()).push(calls.last())
        },
{
    reveal_with_fuel(Seq::filter, 1);
}

/// Filtering keeps a sequence whole when no item misses an asset.
proof fn lemma_all_kept(calls: Seq<CanvasItem>)
    requires
        forall|i: int| 0 <= i < calls.len() ==> !(#[trigger] calls[i]).asset_missing(),
    ensures
        kept_items(calls) == calls,
    decreases calls.len(),
{
    if calls.len() > 0 {
        lemma_all_kept(calls.drop_last());
        assert(!calls[calls.len() - 1].asset_missing());
        lemma_kept_step(calls);
        assert(calls.drop_last().push(calls.last()) =~= calls);
    }
}

/// Of a frame's calls where exactly one item misses its image or font, the
/// list holds all the others, in order: that one item is left out and the
/// list is exactly one shorter than the calls.
pub proof fn lemma_missing_asset_skipped(calls: Seq<CanvasItem>, k: int)
    requires
        0 <= k < calls.len(),
        calls[k].asset_missing(),
        forall|i: int| 0 <= i < calls.len() && i != k ==> !(#[trigger] calls[i]).asset_missing(),
    ensures
        draws(Seq::empty(), calls) == calls.remove(k),
        draws(Seq::empty(), calls).len() == calls.len() - 1,
    decreases calls.len(),
{
    lemma_draw_order_kept(Seq::empty(), calls);
    assert(Seq::<CanvasItem>::empty() + kept_items(calls) =~= kept_items(calls));
    lemma_kept_without(calls, k);
}

proof fn lemma_kept_without(calls: Seq<CanvasItem>, k: int)
    requires
        0 <= k < calls.len(),
        calls[k].asset_missing(),
        forall|i: int| 0 <= i < calls.len() && i != k ==> !(#[trigger] calls[i]).asset_missing(),
    ensures
        kept_items(calls) == calls.remove(k),
    decreases calls.len(),
{
    let front = calls.drop_last();
    if k == calls.len() - 1 {
        assert forall|i: int| 0 <= i < front.len() implies !(#[trigger] front[i]).asset_missing() by {
            assert(front[i] == calls[i]);
        }
        lemma_all_kept(front);
        lemma_kept_step(calls);
        assert(front =~= calls.remove(k));
    } else {
        assert forall|i: int| 0 <= i < front.len() && i != k implies !(#[trigger] front[i]).asset_missing() by {
            assert(front[i] == calls[i]);
        }
        lemma_kept_without(front, k);
        assert(!calls[calls.len() - 1].asset_missing());
        lemma_kept_step(calls);
        assert(front.remove(k).push(calls.last()) =~= calls.remove(k));
    }
}

/// A handle issued by one registry is not taken for one of another registry:
/// an item that holds it is refused by a context over the other registry.
pub proof fn lemma_foreign_handle_refused(
    owner: AssetRegistry,
    other: AssetRegistry,
    area: Area,
    shape: Shape,
    h: ImageHandle,
)
    requires
        owner.issued_image(h),
        owner.spec_id() != other.spec_id(),
    ensures
        !CanvasItem::Image(area, shape, Some(h)).belongs_to(other),
{
}

/// The font counterpart of `lemma_foreign_handle_refused`.
pub proof fn lemma_foreign_font_refused(
    owner: AssetRegistry,
    other: AssetRegistry,
    area: Area,
    style: TextStyle,
)
    requires
        style.font matches Some(f) && owner.issued_font(f),
        owner.spec_id() != other.spec_id(),
    ensures
        !CanvasItem::Text(area, style).belongs_to(other),
{
}

/// A draw that cannot be carried out.
#[derive(Clone, Copy, Debug, PartialEq, Eq, Structural)]
pub enum DrawError {
    /// The item holds a handle that this context's registry did not issue.
    ForeignHandle,
}

/// The registry of an application instance together with the command list
/// of the frame being drawn.
pub struct Context {
    assets: AssetRegistry,
    frame: CommandList,
}

impl Context {
    pub closed spec fn registry(&self) -> AssetRegistry {
        self.assets
    }

    pub closed spec fn frame_items(&self) -> Seq<CanvasItem> {
        self.frame.items@
    }

    pub closed spec fn frame_background(&self) -> Option<Color> {
        self.frame.background
    }

    /// A context with an empty registry whose handles carry `id`, and an
    /// empty frame.
    pub fn new(id: u64) -> (r: Context)
        ensures
            r.registry().spec_id() == id,
            r.registry().image_count() == 0,
            r.registry().font_count() == 0,
            r.frame_items() == Seq::<CanvasItem>::empty(),
            r.frame_background() is None,
    {
        Context { assets: AssetRegistry::new(id), frame: CommandList::new() }
    }

    pub fn assets(&self) -> (r: &AssetRegistry)
        ensures
            *r == self.registry(),
    {
        &self.assets
    }

    pub fn frame(&self) -> (r: &CommandList)
        ensures
            r.items@ == self.frame_items(),
            r.background == self.frame_background(),
    {
        &self.frame
    }

    /// Decodes an image into the registry; see `AssetRegistry::add_image`.
    pub fn add_image(&mut self, bytes: &[u8]) -> (r: Result<ImageHandle, AssetDecodeError>)
        ensures
            r.is_ok() == crate::assets::image_decodes(bytes@),
            bytes@.len() == 0 ==> r is Err,
            r matches Ok(h) ==> old(self).registry().adds_image(final(self).registry(), h),
            r is Err ==> r == Err::<ImageHandle, _>(AssetDecodeError::Image)
                && final(self).registry() == old(self).registry(),
            final(self).frame_items() == old(self).frame_items(),
            final(self).frame_background() == old(self).frame_background(),
    {
        self.assets.add_image(bytes)
    }

    /// Reads a font face into the registry; see `AssetRegistry::add_font`.
    pub fn add_font(&mut self, bytes: &[u8]) -> (r: Result<FontHandle, AssetDecodeError>)
        ensures
            r.is_ok() == crate::assets::font_face_parses(bytes@),
            bytes@.len() == 0 ==> r is Err,
            r matches Ok(h) ==> old(self).registry().adds_font(final(self).registry(), bytes@, h),
            r is Err ==> r == Err::<FontHandle, _>(AssetDecodeError::Font)
                && final(self).registry() == old(self).registry(),
            final(self).frame_items() == old(self).frame_items(),
            final(self).frame_background() == old(self).frame_background(),
    {
        self.assets.add_font(bytes)
    }

    /// Sets the frame's background color, which lies beneath every item of
    /// the frame whenever it is set; a later call replaces an earlier one.
    pub fn clear(&mut self, color: Color)
        ensures
            final(self).frame_background() == Some(color),
            final(self).frame_items() == old(self).frame_items(),
            final(self).registry() == old(self).registry(),
    {
        self.frame.background = Some(color);
    }

    /// Whether every handle in `item` was issued by this context's registry.
    pub fn owns_handles(&self, item: &CanvasItem) -> (r: bool)
        ensures
            r == item.belongs_to(self.registry()),
    {
        match item {
            CanvasItem::Shape(..) => true,
            CanvasItem::Image(_, _, h) => match h {
                Some(h) => h.registry == self.assets.id() && h.index < self.assets.image_len(),
                None => true,
            },
            CanvasItem::Text(_, style) => match style.font {
                Some(f) => f.registry == self.assets.id() && f.index < self.assets.font_len(),
                None => true,
            },
        }
    }

    /// Appends `item` to the frame, above everything drawn before it. An item
    /// whose image or font was never loaded is left out without error. An
    /// item holding a handle of another registry is refused.
    pub fn draw(&mut self, item: CanvasItem) -> (r: Result<(), DrawError>)
        ensures
            r is Err <==> !item.belongs_to(old(self).registry()),
            r is Err ==> r == Err::<(), _>(DrawError::ForeignHandle)
                && final(self).frame_items() == old(self).frame_items(),
            r is Ok ==> final(self).frame_items() == draw_step(old(self).frame_items(), item),
            final(self).frame_background() == old(self).frame_background(),
            final(self).registry() == old(self).registry(),
    {
        if !self.owns_handles(&item) {
            return Err(DrawError::ForeignHandle);
        }
        let missing = match &item {
            CanvasItem::Shape(..) => false,
            CanvasItem::Image(_, _, h) => h.is_none(),
            CanvasItem::Text(_, style) => style.font.is_none(),
        };
        if !missing {
            self.frame.items.push(item);
        }
        Ok(())
    }

    /// Hands over the finished frame and starts the next one empty.
    pub fn end_frame(&mut self) -> (r: CommandList)
        ensures
            r.items@ == old(self).frame_items(),
            r.background == old(self).frame_background(),
            final(self).frame_items() == Seq::<CanvasItem>::empty(),
            final(self).frame_background() is None,
            final(self).registry() == old(self).registry(),
    {
        let mut done = CommandList::new();
        std::mem::swap(&mut self.frame, &mut done);
        done
    }
}

} // verus!
