use vstd::prelude::*;
use crate::assets::{
    font_face_parses, image_decodes, lemma_extends_trans, lemma_font_added_keeps_handles,
    lemma_image_added_keeps_handles, AssetDecodeError, FontHandle, ImageHandle,
};
use crate::canvas::{Area, CanvasItem, Context, Shape};
use crate::style::Color;

verus! {

/// The window width chosen at setup.
pub const DEFAULT_WIDTH: u32 = 850;

/// The window height chosen at setup.
pub const DEFAULT_HEIGHT: u32 = 1300;

/// The left panel of each frame: a filled red rounded rectangle.
pub open spec fn spec_left_panel() -> CanvasItem {
    CanvasItem::Shape(
        Area { x: 100, y: 100, size: None },
        Shape::RoundedRectangle(0, (200, 150), 25),
        Color { red: 255, green: 0, blue: 0 },
        255,
    )
}

/// The right panel of each frame: a filled green rounded rectangle.
pub open spec fn spec_right_panel() -> CanvasItem {
    CanvasItem::Shape(
        Area { x: 350, y: 100, size: None },
        Shape::RoundedRectangle(0, (200, 150), 25),
        Color { red: 0, green: 255, blue: 0 },
        255,
    )
}

pub fn left_panel() -> (r: CanvasItem)
    ensures
        r == spec_left_panel(),
{
    CanvasItem::Shape(
        Area { x: 100, y: 100, size: None },
        Shape::RoundedRectangle(0, (200, 150), 25),
        Color::rgb(255, 0, 0),
        255,
    )
}

pub fn right_panel() -> (r: CanvasItem)
    ensures
        r == spec_right_panel(),
{
    CanvasItem::Shape(
        Area { x: 350, y: 100, size: None },
        Shape::RoundedRectangle(0, (200, 150), 25),
        Color::rgb(0, 255, 0),
        255,
    )
}

/// The assets that setup loads.
#[derive(Clone, Copy, Debug, PartialEq, Eq, Structural)]
pub enum BundledAsset {
    AircraftImage,
    ExplosionImage,
    TitleFont,
}

/// A setup that stopped because an asset did not decode: which one, and how.
#[derive(Clone, Copy, Debug, PartialEq, Eq, Structural)]
pub struct SetupError {
    pub asset: BundledAsset,
    pub error: AssetDecodeError,
}

impl SetupError {
    pub open spec fn aircraft() -> SetupError {
        SetupError { asset: BundledAsset::AircraftImage, error: AssetDecodeError::Image }
    }

    pub open spec fn explosion() -> SetupError {
        SetupError { asset: BundledAsset::ExplosionImage, error: AssetDecodeError::Image }
    }

    pub open spec fn title_font() -> SetupError {
        SetupError { asset: BundledAsset::TitleFont, error: AssetDecodeError::Font }
    }
}

/// The application: its window size and the handles of the art it loaded
/// at setup, the aircraft and explosion images and the title font.
pub struct MyApp {
    window_size: (u32, u32),
    image_keys: Option<(ImageHandle, ImageHandle)>,
    font: Option<FontHandle>,
}

impl MyApp {
    pub closed spec fn spec_window_size(&self) -> (u32, u32) {
        self.window_size
    }

    pub closed spec fn spec_image_keys(&self) -> Option<(ImageHandle, ImageHandle)> {
        self.image_keys
    }

    pub closed spec fn spec_font(&self) -> Option<FontHandle> {
        self.font
    }

    /// Sets the application up: loads the aircraft and explosion images and
    /// the font into the context's registry, in that order, and fixes the
    /// window size. The first asset that does not decode ends the setup with
    /// an error that names it; what was loaded before stays in the registry.
    pub fn new(ctx: &mut Context, aircraft: &[u8], explosion: &[u8], font: &[u8]) -> (r: Result<
        MyApp,
        SetupError,
    >)
        ensures
            r is Ok <==> image_decodes(aircraft@) && image_decodes(explosion@) && font_face_parses(font@),
            r == Err::<MyApp, _>(SetupError::aircraft()) <==> !image_decodes(aircraft@),
            r == Err::<MyApp, _>(SetupError::explosion()) <==> image_decodes(aircraft@)
                && !image_decodes(explosion@),
            r == Err::<MyApp, _>(SetupError::title_font()) <==> image_decodes(aircraft@)
                && image_decodes(explosion@) && !font_face_parses(font@),
            aircraft@.len() == 0 ==> r == Err::<MyApp, _>(SetupError::aircraft()),
            explosion@.len() == 0 ==> (r matches Err(e) && e.error == AssetDecodeError::Image),
            font@.len() == 0 ==> r is Err,
            r == Err::<MyApp, _>(SetupError::aircraft()) ==> final(ctx).registry() == old(ctx).registry(),
            final(ctx).registry().extends(old(ctx).registry()),
            r matches Ok(app) ==> {
                let id = old(ctx).registry().spec_id();
                let n = old(ctx).registry().image_count();
                let m = old(ctx).registry().font_count();
                &&& n + 2 <= usize::MAX
                &&& m + 1 <= usize::MAX
                &&& app.spec_window_size() == (DEFAULT_WIDTH, DEFAULT_HEIGHT)
                &&& app.spec_image_keys() == Some(
                    (
                        ImageHandle { registry: id, index: n as usize },
                        ImageHandle { registry: id, index: (n + 1) as usize },
                    ),
                )
                &&& app.spec_font() == Some(FontHandle { registry: id, index: m as usize })
                &&& final(ctx).registry().image_count() == n + 2
                &&& final(ctx).registry().font_count() == m + 1
                &&& final(ctx).registry().font_bytes() == old(ctx).registry().font_bytes().push(font@)
            },
            final(ctx).frame_items() == old(ctx).frame_items(),
            final(ctx).frame_background() == old(ctx).frame_background(),
    {
        let ghost r0 = ctx.registry();
        proof {
            lemma_extends_trans(r0, r0, r0);
        }
        let image1 = match ctx.add_image(aircraft) {
            Ok(h) => h,
            Err(e) => return Err(SetupError { asset: BundledAsset::AircraftImage, error: e }),
        };
        let ghost r1 = ctx.registry();
        proof {
            lemma_image_added_keeps_handles(r0, r1, image1);
        }
        let image2 = match ctx.add_image(explosion) {
            Ok(h) => h,
            Err(e) => return Err(SetupError { asset: BundledAsset::ExplosionImage, error: e }),
        };
        let ghost r2 = ctx.registry();
        proof {
            lemma_image_added_keeps_handles(r1, r2, image2);
            lemma_extends_trans(r0, r1, r2);
        }
        let face = match ctx.add_font(font) {
            Ok(h) => h,
            Err(e) => return Err(SetupError { asset: BundledAsset::TitleFont, error: e }),
        };
        proof {
            lemma_font_added_keeps_handles(r2, ctx.registry(), font@, face);
            lemma_extends_trans(r0, r2, ctx.registry());
        }
        Ok(MyApp {
            window_size: (DEFAULT_WIDTH, DEFAULT_HEIGHT),
            image_keys: Some((image1, image2)),
            font: Some(face),
        })
    }

    pub fn window_size(&self) -> (r: (u32, u32))
        ensures
            r == self.spec_window_size(),
    {
        self.window_size
    }

    pub fn image_keys(&self) -> (r: Option<(ImageHandle, ImageHandle)>)
        ensures
            r == self.spec_image_keys(),
    {
        self.image_keys
    }

    pub fn font(&self) -> (r: Option<FontHandle>)
        ensures
            r == self.spec_font(),
    {
        self.font
    }

    /// Draws one frame: a black background, then the red panel, then the
    /// green panel over anything they overlap.
    pub fn draw(&mut self, ctx: &mut Context)
        ensures
            final(ctx).frame_background() == Some(Color { red: 0, green: 0, blue: 0 }),
            final(ctx).frame_items() == old(ctx).frame_items() + seq![
                spec_left_panel(),
                spec_right_panel(),
            ],
            final(ctx).registry() == old(ctx).registry(),
            *final(self) == *old(self),
    {
        ctx.clear(Color::rgb(0, 0, 0));
        let _ = ctx.draw(left_panel());
        let _ = ctx.draw(right_panel());
        assert(ctx.frame_items() =~= old(ctx).frame_items() + seq![
            spec_left_panel(),
            spec_right_panel(),
        ]);
    }

    /// A click changes nothing.
    pub fn on_click(&mut self, ctx: &mut Context)
        ensures
            *final(self) == *old(self),
            *final(ctx) == *old(ctx),
    {
    }

    /// A pointer move changes nothing.
    pub fn on_move(&mut self, ctx: &mut Context)
        ensures
            *final(self) == *old(self),
            *final(ctx) == *old(ctx),
    {
    }

    /// A key press changes nothing, whatever the key.
    pub fn on_press(&mut self, ctx: &mut Context, key: String)
        ensures
            *final(self) == *old(self),
            *final(ctx) == *old(ctx),
    {
    }
}

} // verus!
