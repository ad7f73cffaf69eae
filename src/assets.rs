use vstd::prelude::*;

verus! {

#[verifier::external_type_specification]
#[verifier::external_body]
pub struct ExDynamicImage(image::DynamicImage);

#[verifier::external_type_specification]
#[verifier::external_body]
pub struct ExImageError(image::ImageError);

/// Whether `image::load_from_memory_with_format` decodes these bytes as PNG.
pub uninterp spec fn image_decodes(bytes: Seq<u8>) -> bool;

/// Whether `ttf_parser::Face::parse` reads the first face of these bytes.
pub uninterp spec fn font_face_parses(bytes: Seq<u8>) -> bool;

/// Relies on image::load_from_memory_with_format with the PNG format fixed,
/// which takes the built-in PNG decoder and no registered hook, so that the
/// outcome depends on the bytes alone; with no bytes the PNG header cannot
/// be read and it fails.
#[verifier::external_body]
fn decode_image(bytes: &[u8]) -> (r: Result<image::DynamicImage, image::ImageError>)
    ensures
        r.is_ok() == image_decodes(bytes@),
        bytes@.len() == 0 ==> r.is_err(),
{
    image::load_from_memory_with_format(bytes, image::ImageFormat::Png)
}

/// Relies on ttf_parser::Face::parse at face index 0, which fails when the
/// font magic cannot be read, as with no bytes.
#[verifier::external_body]
fn parse_font_face(bytes: &[u8]) -> (r: bool)
    ensures
        r == font_face_parses(bytes@),
        bytes@.len() == 0 ==> !r,
{
    ttf_parser::Face::parse(bytes, 0).is_ok()
}

/// Identifies a decoded image held by one registry.
#[derive(Clone, Copy, Debug, PartialEq, Eq, Hash, Structural)]
pub struct ImageHandle {
    pub registry: u64,
    pub index: usize,
}

/// Identifies a font face held by one registry.
#[derive(Clone, Copy, Debug, PartialEq, Eq, Hash, Structural)]
pub struct FontHandle {
    pub registry: u64,
    pub index: usize,
}

/// Encoded bytes that are not a readable image or font.
#[derive(Clone, Copy, Debug, PartialEq, Eq, Structural)]
pub enum AssetDecodeError {
    Image,
    Font,
}

/// Decoded images and fonts, each kept for the registry's lifetime under the
/// position at which it was added. Nothing is ever removed or replaced, so a
/// handle goes on naming the same resource; equal bytes added twice are kept
/// twice, under two handles.
pub struct AssetRegistry {
    id: u64,
    images: Vec<image::DynamicImage>,
    fonts: Vec<Vec<u8>>,
}

impl AssetRegistry {
    /// The identifier that this registry writes into its handles.
    pub closed spec fn spec_id(&self) -> u64 {
        self.id
    }

    pub closed spec fn image_count(&self) -> nat {
        self.images@.len()
    }

    /// The decoded images, in the order of addition.
    pub closed spec fn stored_images(&self) -> Seq<image::DynamicImage> {
        self.images@
    }

    pub closed spec fn font_count(&self) -> nat {
        self.fonts@.len()
    }

    /// The bytes of each font, in the order of addition.
    pub closed spec fn font_bytes(&self) -> Seq<Seq<u8>> {
        self.fonts@.map_values(|f: Vec<u8>| f@)
    }

    /// Whether `h` was issued by this registry.
    pub open spec fn issued_image(&self, h: ImageHandle) -> bool {
        h.registry == self.spec_id() && h.index < self.image_count()
    }

    /// Whether `h` was issued by this registry.
    pub open spec fn issued_font(&self, h: FontHandle) -> bool {
        h.registry == self.spec_id() && h.index < self.font_count()
    }

    /// `self` holds everything that `earlier` held, under the same handles:
    /// nothing issued by `earlier` is lost or changed.
    pub open spec fn extends(&self, earlier: AssetRegistry) -> bool {
        &&& self.spec_id() == earlier.spec_id()
        &&& earlier.image_count() <= self.image_count()
        &&& earlier.font_count() <= self.font_count()
        &&& self.stored_images().take(earlier.image_count() as int) == earlier.stored_images()
        &&& self.font_bytes().take(earlier.font_count() as int) == earlier.font_bytes()
    }

    /// `next` is `self` with one more image, named by `h`.
    pub open spec fn adds_image(&self, next: AssetRegistry, h: ImageHandle) -> bool {
        &&& h == ImageHandle { registry: self.spec_id(), index: self.image_count() as usize }
        &&& next.spec_id() == self.spec_id()
        &&& next.image_count() == self.image_count() + 1
        &&& next.image_count() <= usize::MAX
        &&& next.stored_images().drop_last() == self.stored_images()
        &&& next.font_bytes() == self.font_bytes()
        &&& next.font_count() == self.font_count()
    }

    /// `next` is `self` with one more font face, `bytes`, named by `h`.
    pub open spec fn adds_font(&self, next: AssetRegistry, bytes: Seq<u8>, h: FontHandle) -> bool {
        &&& h == FontHandle { registry: self.spec_id(), index: self.font_count() as usize }
        &&& next.spec_id() == self.spec_id()
        &&& next.image_count() == self.image_count()
        &&& next.stored_images() == self.stored_images()
        &&& next.font_bytes() == self.font_bytes().push(bytes)
        &&& next.font_count() == self.font_count() + 1
        &&& next.font_count() <= usize::MAX
    }

    /// An empty registry whose handles carry `id`. Registries that live side
    /// by side are given different identifiers, so that each can tell its own
    /// handles from another's.
    pub fn new(id: u64) -> (r: AssetRegistry)
        ensures
            r.spec_id() == id,
            r.image_count() == 0,
            r.font_count() == 0,
            r.font_bytes() == Seq::<Seq<u8>>::empty(),
    {
        let r = AssetRegistry { id, images: Vec::new(), fonts: Vec::new() };
        assert(r.font_bytes() =~= Seq::<Seq<u8>>::empty());
        r
    }

    pub fn id(&self) -> (r: u64)
        ensures
            r == self.spec_id(),
    {
        self.id
    }

    pub fn image_len(&self) -> (r: usize)
        ensures
            r == self.image_count(),
    {
        self.images.len()
    }

    pub fn font_len(&self) -> (r: usize)
        ensures
            r == self.font_count(),
    {
        self.fonts.len()
    }

    /// Decodes an encoded image and keeps it under a fresh handle. Bytes that
    /// do not decode leave the registry as it was.
    pub fn add_image(&mut self, bytes: &[u8]) -> (r: Result<ImageHandle, AssetDecodeError>)
        ensures
            r.is_ok() == image_decodes(bytes@),
            bytes@.len() == 0 ==> r is Err,
            r matches Ok(h) ==> old(self).adds_image(*final(self), h),
            r is Err ==> r == Err::<ImageHandle, _>(AssetDecodeError::Image) && *final(self) == *old(self),
    {
        match decode_image(bytes) {
            Ok(img) => {
                self.images.push(img);
                proof {
                    assert(self.images@.drop_last() =~= old(self).images@);
                }
                Ok(ImageHandle { registry: self.id, index: self.images.len() - 1 })
            },
            Err(_) => Err(AssetDecodeError::Image),
        }
    }

    /// Reads a font face from its encoded bytes and keeps the bytes under a
    /// fresh handle. Bytes that hold no readable face leave the registry as it
    /// was.
    pub fn add_font(&mut self, bytes: &[u8]) -> (r: Result<FontHandle, AssetDecodeError>)
        ensures
            r.is_ok() == font_face_parses(bytes@),
            bytes@.len() == 0 ==> r is Err,
            r matches Ok(h) ==> old(self).adds_font(*final(self), bytes@, h),
            r is Err ==> r == Err::<FontHandle, _>(AssetDecodeError::Font) && *final(self) == *old(self),
    {
        if parse_font_face(bytes) {
            let kept = vstd::slice::slice_to_vec(bytes);
            self.fonts.push(kept);
            let h = FontHandle { registry: self.id, index: self.fonts.len() - 1 };
            proof {
                assert(self.font_bytes() =~= old(self).font_bytes().push(bytes@));
            }
            Ok(h)
        } else {
            Err(AssetDecodeError::Font)
        }
    }

    /// The decoded image that `h` names.
    pub fn image(&self, h: ImageHandle) -> (r: &image::DynamicImage)
        requires
            self.issued_image(h),
        ensures
            *r == self.stored_images()[h.index as int],
    {
        &self.images[h.index]
    }

    /// The encoded bytes of the font that `h` names.
    pub fn font_data(&self, h: FontHandle) -> (r: &[u8])
        requires
            self.issued_font(h),
        ensures
            r@ == self.font_bytes()[h.index as int],
    {
        self.fonts[h.index].as_slice()
    }
}

/// Adding an image keeps every handle issued before: each still names the
/// same image or font bytes.
pub proof fn lemma_image_added_keeps_handles(r0: AssetRegistry, r1: AssetRegistry, h: ImageHandle)
    requires
        r0.adds_image(r1, h),
    ensures
        r1.extends(r0),
{
    assert(r1.stored_images().take(r0.image_count() as int) =~= r1.stored_images().drop_last());
    assert(r1.font_bytes().take(r0.font_count() as int) =~= r1.font_bytes());
}

/// Adding a font keeps every handle issued before: each still names the
/// same image or font bytes.
pub proof fn lemma_font_added_keeps_handles(
    r0: AssetRegistry,
    r1: AssetRegistry,
    bytes: Seq<u8>,
    h: FontHandle,
)
    requires
        r0.adds_font(r1, bytes, h),
    ensures
        r1.extends(r0),
{
    assert(r1.stored_images().take(r0.image_count() as int) =~= r1.stored_images());
    assert(r1.font_bytes().drop_last() =~= r0.font_bytes());
    assert(r1.font_bytes().take(r0.font_count() as int) =~= r1.font_bytes().drop_last());
}

/// A registry extends itself, and extending is transitive.
pub proof fn lemma_extends_trans(a: AssetRegistry, b: AssetRegistry, c: AssetRegistry)
    ensures
        a.extends(a),
        b.extends(a) && c.extends(b) ==> c.extends(a),
{
    assert(a.stored_images().take(a.image_count() as int) =~= a.stored_images());
    assert(a.font_bytes().take(a.font_count() as int) =~= a.font_bytes());
    if b.extends(a) && c.extends(b) {
        assert(c.stored_images().take(a.image_count() as int)
            =~= c.stored_images().take(b.image_count() as int).take(a.image_count() as int));
        assert(c.font_bytes().take(a.font_count() as int)
            =~= c.font_bytes().take(b.font_count() as int).take(a.font_count() as int));
    }
}

/// An issued handle stays issued in every registry that extends its own,
/// and names the same image there.
pub proof fn lemma_extended_image_handle(earlier: AssetRegistry, later: AssetRegistry, h: ImageHandle)
    requires
        later.extends(earlier),
        earlier.issued_image(h),
    ensures
        later.issued_image(h),
        later.stored_images()[h.index as int] == earlier.stored_images()[h.index as int],
{
    assert(later.stored_images().take(earlier.image_count() as int)[h.index as int]
        == later.stored_images()[h.index as int]);
}

/// An issued font handle stays issued in every registry that extends its
/// own, and names the same bytes there.
pub proof fn lemma_extended_font_handle(earlier: AssetRegistry, later: AssetRegistry, h: FontHandle)
    requires
        later.extends(earlier),
        earlier.issued_font(h),
    ensures
        later.issued_font(h),
        later.font_bytes()[h.index as int] == earlier.font_bytes()[h.index as int],
{
    assert(later.font_bytes().take(earlier.font_count() as int)[h.index as int]
        == later.font_bytes()[h.index as int]);
}

/// Adding the same image bytes twice gives two different handles, and the
/// registry keeps both.
pub proof fn lemma_images_not_deduplicated(
    r0: AssetRegistry,
    r1: AssetRegistry,
    r2: AssetRegistry,
    h1: ImageHandle,
    h2: ImageHandle,
)
    requires
        r0.adds_image(r1, h1),
        r1.adds_image(r2, h2),
    ensures
        h1 != h2,
        r2.issued_image(h1),
        r2.issued_image(h2),
{
}

/// Adding the same font bytes twice gives two different handles, and the
/// registry keeps both.
pub proof fn lemma_fonts_not_deduplicated(
    r0: AssetRegistry,
    r1: AssetRegistry,
    r2: AssetRegistry,
    bytes: Seq<u8>,
    h1: FontHandle,
    h2: FontHandle,
)
    requires
        r0.adds_font(r1, bytes, h1),
        r1.adds_font(r2, bytes, h2),
    ensures
        h1 != h2,
        r2.issued_font(h1),
        r2.issued_font(h2),
        r2.font_bytes()[h1.index as int] == r2.font_bytes()[h2.index as int],
{
}

} // verus!
