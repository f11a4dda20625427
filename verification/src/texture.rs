//! Textures and their configuration.

use vstd::prelude::*;
use crate::buffers::framebuffer::attachment::FrameBufferAttachment;
use crate::driver::{
    got_unsigned, sent, Command, Driver, Exchange, Gl, GlCall, ImageTarget, Run, TextureFilter,
    TextureSetting, TextureWrap,
};
use crate::gl_error::OpenGLError;
use crate::gl_tex_unit::TextureUnit;
use crate::texture::cubemap::{CubemapPaths, CubemapTextureType};
use crate::texture::pixels::{flip_vertically, flipped, rgb8_pixels, to_rgb8, RgbPixels};
use crate::texture::gl_texturetype::TextureType;
use crate::texture::texture_configuration::TexConfig;

pub mod cubemap;
pub mod gl_internalstorage;
pub mod gl_texturetype;
pub mod pix_type;
pub mod pixels;
pub mod texture_configuration;

verus! {

/// Failure to read or decode an image, as the `image` crate reports it.
#[verifier::external_type_specification]
#[verifier::external_body]
pub struct ExImageError(image::ImageError);

/// Failure of an input or output operation, as the standard library reports
/// it.
#[verifier::external_type_specification]
#[verifier::external_body]
pub struct ExIoError(std::io::Error);

/// What went wrong while a texture was made.
#[derive(Debug)]
pub enum TextureError {
    /// The driver refused the texture.
    OpenGLError(OpenGLError),
    /// The image could not be read or decoded.
    ImageError(image::ImageError),
    /// A file of the texture could not be found or read.
    IOError(std::io::Error),
    /// Kind, storage, pixel format and pixel type do not go together.
    BadTextureConfig,
    /// The image is wider or higher than the driver can be told.
    ImageTooLarge,
}

impl From<OpenGLError> for TextureError {
    fn from(err: OpenGLError) -> (failure: TextureError) {
        TextureError::OpenGLError(err)
    }
}

impl vstd::std_specs::convert::FromSpecImpl<OpenGLError> for TextureError {
    open spec fn obeys_from_spec() -> bool {
        true
    }

    open spec fn from_spec(err: OpenGLError) -> TextureError {
        TextureError::OpenGLError(err)
    }
}

impl From<image::ImageError> for TextureError {
    fn from(err: image::ImageError) -> (failure: TextureError) {
        TextureError::ImageError(err)
    }
}

impl vstd::std_specs::convert::FromSpecImpl<image::ImageError> for TextureError {
    open spec fn obeys_from_spec() -> bool {
        true
    }

    open spec fn from_spec(err: image::ImageError) -> TextureError {
        TextureError::ImageError(err)
    }
}

impl From<std::io::Error> for TextureError {
    fn from(err: std::io::Error) -> (failure: TextureError) {
        TextureError::IOError(err)
    }
}

impl vstd::std_specs::convert::FromSpecImpl<std::io::Error> for TextureError {
    open spec fn obeys_from_spec() -> bool {
        true
    }

    open spec fn from_spec(err: std::io::Error) -> TextureError {
        TextureError::IOError(err)
    }
}

/// The allocation of a texture of the given configuration and its binding
/// to its kind.
pub open spec fn allocation<F>(id: u32, cfg: TexConfig) -> Seq<Exchange<F>> {
    seq![
        got_unsigned(Command::GenTexture, id),
        sent(Command::BindTexture { target: cfg.tex_type, texture: id }),
    ]
}

/// The upload of an image of the given width and height to `target`, from
/// `pixels` or, where there are none, empty.
pub open spec fn image_upload<F>(
    target: ImageTarget,
    cfg: TexConfig,
    width: i32,
    height: i32,
    pixels: Option<Seq<u8>>,
) -> Exchange<F> {
    sent(
        Command::TexImage2D {
            target,
            storage: cfg.internal_fmt,
            width,
            height,
            format: cfg.pix_data_fmt,
            data_type: cfg.pix_type_fmt,
            pixels,
        },
    )
}

/// The greatest width and height that the driver can be told.
pub const MAX_IMAGE_SIDE: u32 = 0x7fff_ffff;

/// Whether the image can be uploaded: what [`rgb8_pixels`] makes of it after
/// it was [`flipped`] is no wider and no higher than [`MAX_IMAGE_SIDE`].
pub open spec fn uploadable(img: image::DynamicImage) -> bool {
    let rgb = rgb8_pixels(flipped(img));
    rgb.0 <= MAX_IMAGE_SIDE && rgb.1 <= MAX_IMAGE_SIDE
}

/// The upload to `target` of what [`rgb8_pixels`] makes of an uploadable
/// `img` after it was [`flipped`]: the first row of the image becomes the
/// bottom row of the texture.
pub open spec fn file_upload<F>(target: ImageTarget, cfg: TexConfig, img: image::DynamicImage) -> Exchange<
    F,
> {
    let rgb = rgb8_pixels(flipped(img));
    image_upload(target, cfg, rgb.0 as i32, rgb.1 as i32, Some(rgb.2))
}

/// The given settings of the texture bound to `target`, one call each, in
/// order.
pub open spec fn settings<F>(target: TextureType, list: Seq<TextureSetting>) -> Seq<Exchange<F>> {
    Seq::new(list.len(), |i: int| sent(Command::TexParameter { target, setting: list[i] }))
}

/// What making a texture of one image file adds to the history: the texture
/// is allocated and bound, the image is uploaded, the mipmaps are generated,
/// and the texture is set to repeat along both axes and to filter linearly.
pub open spec fn file_texture<F>(id: u32, cfg: TexConfig, img: image::DynamicImage) -> Seq<
    Exchange<F>,
> {
    allocation(id, cfg).push(file_upload(ImageTarget::Texture(cfg.tex_type), cfg, img)).push(
        sent(Command::GenerateMipmap { target: cfg.tex_type }),
    ) + settings(
        cfg.tex_type,
        seq![
            TextureSetting::WrapS(TextureWrap::Repeat),
            TextureSetting::WrapT(TextureWrap::Repeat),
            TextureSetting::MinFilter(TextureFilter::Linear),
            TextureSetting::MagFilter(TextureFilter::Linear),
        ],
    )
}

/// The upload of the first `count` faces of a cubemap, in order, as far as
/// their images were read and can be uploaded: the first image that was not
/// read ends the run with the failure to read it, and the first that is too
/// large ends it as too large.
pub open spec fn face_uploads<F>(
    cfg: TexConfig,
    faces: Seq<(Result<image::DynamicImage, image::ImageError>, CubemapTextureType)>,
    count: int,
) -> Run<F, TextureError>
    decreases count,
{
    if count <= 0 {
        Run::passed(Seq::empty())
    } else {
        let face = faces[count - 1];
        face_uploads(cfg, faces, count - 1).followed_by(
            match face.0 {
                Ok(img) => if uploadable(img) {
                    Run::passed(seq![file_upload(ImageTarget::Face(face.1), cfg, img)])
                } else {
                    Run::failed(Seq::empty(), TextureError::ImageTooLarge)
                },
                Err(error) => Run::failed(Seq::empty(), TextureError::ImageError(error)),
            },
        )
    }
}

/// What making a cubemap of six image files adds to the history: the
/// texture is allocated and bound, the faces are uploaded in order, and the
/// texture is set to repeat along its three axes and to filter linearly.
/// The first image that was not read ends the run.
pub open spec fn cubemap_texture<F>(
    id: u32,
    cfg: TexConfig,
    faces: Seq<(Result<image::DynamicImage, image::ImageError>, CubemapTextureType)>,
) -> Run<F, TextureError> {
    Run::passed(allocation(id, cfg)).followed_by(face_uploads(cfg, faces, faces.len() as int)).followed_by(
        Run::passed(
            settings(
                cfg.tex_type,
                seq![
                    TextureSetting::WrapS(TextureWrap::Repeat),
                    TextureSetting::WrapT(TextureWrap::Repeat),
                    TextureSetting::WrapR(TextureWrap::Repeat),
                    TextureSetting::MinFilter(TextureFilter::Linear),
                    TextureSetting::MagFilter(TextureFilter::Linear),
                ],
            ),
        ),
    )
}

/// What making the texture of a framebuffer attachment adds to the history:
/// the texture is allocated and bound, an empty image of the given width and
/// height is defined, the texture is set to filter linearly, and it is
/// attached to the bound framebuffer at `attachment`.
pub open spec fn attachment_texture<F>(
    id: u32,
    cfg: TexConfig,
    width: i32,
    height: i32,
    attachment: FrameBufferAttachment,
) -> Seq<Exchange<F>> {
    allocation(id, cfg).push(
        image_upload(ImageTarget::Texture(cfg.tex_type), cfg, width, height, None),
    ) + settings(
        cfg.tex_type,
        seq![
            TextureSetting::MinFilter(TextureFilter::Linear),
            TextureSetting::MagFilter(TextureFilter::Linear),
        ],
    ).push(
        sent(Command::FramebufferTexture2D { attachment, target: cfg.tex_type, texture: id }),
    )
}

/// A texture: one handle of the driver, and the configuration it was made
/// with.
#[derive(Debug)]
pub struct Texture {
    id: u32,
    tex_cfg: TexConfig,
}

impl Texture {
    /// Handle of the texture.
    pub closed spec fn handle(&self) -> u32 {
        self.id
    }

    /// Configuration of the texture.
    pub closed spec fn config(&self) -> TexConfig {
        self.tex_cfg
    }

    /// Handle of the texture.
    pub fn id(&self) -> (id: u32)
        ensures
            id == self.handle(),
    {
        self.id
    }

    /// Configuration of the texture.
    pub fn tex_cfg(&self) -> (cfg: TexConfig)
        ensures
            cfg == self.config(),
    {
        self.tex_cfg
    }

    fn allocate<D: Driver>(gl: &mut Gl<D>, tex_cfg: TexConfig) -> (id: u32)
        ensures
            final(gl).history() == old(gl).history() + allocation(id, tex_cfg),
    {
        let id = gl.query_unsigned(GlCall::GenTexture);
        gl.submit(GlCall::BindTexture { target: tex_cfg.tex_type, texture: id });
        proof {
            assert(gl.history() == old(gl).history() + allocation(id, tex_cfg));
        }
        id
    }

    /// Flips an image and turns it into rows of pixels of three bytes, or
    /// gives nothing where the result is too large to be uploaded.
    fn prepare(img: image::DynamicImage) -> (pixels: Option<RgbPixels>)
        ensures
            uploadable(img) ==> pixels is Some && pixels->Some_0@ == rgb8_pixels(flipped(img)),
            !uploadable(img) ==> pixels is None,
    {
        let turned = flip_vertically(&img);
        let rgb_image = to_rgb8(&turned);
        if rgb_image.width <= MAX_IMAGE_SIDE && rgb_image.height <= MAX_IMAGE_SIDE {
            Some(rgb_image)
        } else {
            None
        }
    }

    /// Uploads an image that was turned into rows of pixels of three bytes,
    /// and is no wider and no higher than [`MAX_IMAGE_SIDE`].
    pub fn upload_pixels<D: Driver>(
        gl: &mut Gl<D>,
        target: ImageTarget,
        tex_cfg: TexConfig,
        rgb_image: RgbPixels,
    )
        requires
            rgb_image.width <= MAX_IMAGE_SIDE,
            rgb_image.height <= MAX_IMAGE_SIDE,
        ensures
            final(gl).history() == old(gl).history().push(
                image_upload(
                    target,
                    tex_cfg,
                    rgb_image.width as i32,
                    rgb_image.height as i32,
                    Some(rgb_image.bytes@),
                ),
            ),
    {
        gl.submit(
            GlCall::TexImage2D {
                target,
                storage: tex_cfg.internal_fmt,
                width: rgb_image.width as i32,
                height: rgb_image.height as i32,
                format: tex_cfg.pix_data_fmt,
                data_type: tex_cfg.pix_type_fmt,
                pixels: Some(rgb_image.bytes),
            },
        );
    }

    fn configure<D: Driver>(gl: &mut Gl<D>, target: TextureType, list: Vec<TextureSetting>)
        ensures
            final(gl).history() == old(gl).history() + settings(target, list@),
    {
        let mut i: usize = 0;
        assert(settings::<D::Scalar>(target, list@).take(0) == Seq::<Exchange<D::Scalar>>::empty());
        while i < list.len()
            invariant
                i <= list.len(),
                gl.history() == old(gl).history() + settings(target, list@).take(i as int),
            decreases list.len() - i,
        {
            gl.submit(GlCall::TexParameter { target, setting: list[i] });
            proof {
                let all = settings::<D::Scalar>(target, list@);
                assert(all.take(i + 1) == all.take(i as int).push(all[i as int]));
            }
            i += 1;
        }
        proof {
            let all = settings::<D::Scalar>(target, list@);
            assert(all.take(i as int) == all);
        }
    }

    /// Makes a two-dimensional texture of an image that was read from a
    /// file, or hands on the failure to read it. The configuration is
    /// validated first, and nothing is asked of the driver where it is bad,
    /// where the image was not read, or where the image is too large to be
    /// uploaded.
    pub fn from_file<D: Driver>(
        gl: &mut Gl<D>,
        image: Result<image::DynamicImage, image::ImageError>,
        tex_cfg: TexConfig,
    ) -> (made: Result<Texture, TextureError>)
        ensures
            !tex_cfg.is_valid() ==> {
                &&& made matches Err(TextureError::BadTextureConfig)
                &&& final(gl).history() == old(gl).history()
            },
            tex_cfg.is_valid() && image is Err ==> {
                &&& made matches Err(TextureError::ImageError(error)) && error == image->Err_0
                &&& final(gl).history() == old(gl).history()
            },
            tex_cfg.is_valid() && image is Ok && !uploadable(image->Ok_0) ==> {
                &&& made matches Err(TextureError::ImageTooLarge)
                &&& final(gl).history() == old(gl).history()
            },
            tex_cfg.is_valid() && image is Ok && uploadable(image->Ok_0) ==> {
                &&& made is Ok
                &&& made->Ok_0.config() == tex_cfg
                &&& final(gl).history() == old(gl).history() + file_texture(
                    made->Ok_0.handle(),
                    tex_cfg,
                    image->Ok_0,
                )
            },
    {
        match tex_cfg.validate() {
            Err(error) => return Err(error),
            Ok(()) => {},
        }
        let dyn_img = match image {
            Ok(img) => img,
            Err(error) => return Err(TextureError::ImageError(error)),
        };
        let ghost img = dyn_img;
        let rgb_image = match Texture::prepare(dyn_img) {
            Some(pixels) => pixels,
            None => return Err(TextureError::ImageTooLarge),
        };
        let tex_id = Texture::allocate(gl, tex_cfg);
        Texture::upload_pixels(gl, ImageTarget::Texture(tex_cfg.tex_type), tex_cfg, rgb_image);
        gl.submit(GlCall::GenerateMipmap { target: tex_cfg.tex_type });
        let ghost uploaded = gl.history();
        let mut list = Vec::new();
        list.push(TextureSetting::WrapS(TextureWrap::Repeat));
        list.push(TextureSetting::WrapT(TextureWrap::Repeat));
        list.push(TextureSetting::MinFilter(TextureFilter::Linear));
        list.push(TextureSetting::MagFilter(TextureFilter::Linear));
        Texture::configure(gl, tex_cfg.tex_type, list);
        proof {
            assert(list@ == seq![
                TextureSetting::WrapS(TextureWrap::Repeat),
                TextureSetting::WrapT(TextureWrap::Repeat),
                TextureSetting::MinFilter(TextureFilter::Linear),
                TextureSetting::MagFilter(TextureFilter::Linear),
            ]);
            assert(uploaded == old(gl).history() + allocation(tex_id, tex_cfg).push(
                file_upload(ImageTarget::Texture(tex_cfg.tex_type), tex_cfg, img),
            ).push(sent(Command::GenerateMipmap { target: tex_cfg.tex_type })));
            assert(gl.history() == old(gl).history() + file_texture(tex_id, tex_cfg, img));
        }
        Ok(Texture { id: tex_id, tex_cfg })
    }

    /// Makes a cubemap of six images that were read from files, each handed
    /// over as the image or as the failure to read it. The configuration is
    /// validated first, and nothing is asked of the driver where it is bad.
    /// Else the steps are those of [`cubemap_texture`]; the first image
    /// that was not read, or that is too large to be uploaded, ends the
    /// work, and no texture is returned.
    pub fn cubemap_from_files<D: Driver>(
        gl: &mut Gl<D>,
        paths: CubemapPaths<Result<image::DynamicImage, image::ImageError>>,
        tex_cfg: TexConfig,
    ) -> (made: Result<Texture, TextureError>)
        ensures
            !tex_cfg.is_valid() ==> {
                &&& made matches Err(TextureError::BadTextureConfig)
                &&& final(gl).history() == old(gl).history()
            },
            tex_cfg.is_valid() ==> exists|id: u32|
                {
                    let run = #[trigger] cubemap_texture::<D::Scalar>(id, tex_cfg, paths.entries());
                    &&& final(gl).history() == old(gl).history() + run.trace
                    &&& match made {
                        Ok(texture) => run.failure is None && texture.handle() == id
                            && texture.config() == tex_cfg,
                        Err(error) => run.failure == Some(error),
                    }
                },
    {
        match tex_cfg.validate() {
            Err(error) => return Err(error),
            Ok(()) => {},
        }
        let ghost faces = paths.entries();
        let mut images = paths.cubemap_entries();
        let tex_id = Texture::allocate(gl, tex_cfg);
        let ghost begun = Run::<D::Scalar, TextureError>::passed(allocation(tex_id, tex_cfg));
        let total = images.len();
        let mut taken: usize = 0;
        while taken < total
            invariant
                tex_cfg.is_valid(),
                begun == Run::<D::Scalar, TextureError>::passed(allocation(tex_id, tex_cfg)),
                faces == paths.entries(),
                total == faces.len(),
                taken <= total,
                images@ == faces.skip(taken as int),
                face_uploads::<D::Scalar>(tex_cfg, faces, taken as int).failure is None,
                gl.history() == old(gl).history() + begun.followed_by(
                    face_uploads(tex_cfg, faces, taken as int),
                ).trace,
            decreases total - taken,
        {
            let (image, cm_type) = images.remove(0);
            proof {
                assert(faces[taken as int] == (image, cm_type));
                assert(images@ == faces.skip(taken + 1));
            }
            let ghost before = face_uploads::<D::Scalar>(tex_cfg, faces, taken as int);
            let dyn_img = match image {
                Ok(img) => img,
                Err(error) => {
                    proof {
                        let ended = face_uploads::<D::Scalar>(tex_cfg, faces, taken + 1);
                        assert(ended.failure == Some(TextureError::ImageError(error)));
                        assert(ended.trace == before.trace);
                        lemma_failed_uploads_stay_failed::<D::Scalar>(
                            tex_cfg,
                            faces,
                            taken + 1,
                            total as int,
                        );
                        let all = face_uploads::<D::Scalar>(tex_cfg, faces, faces.len() as int);
                        assert(all == ended);
                        assert(begun.followed_by(all).trace == begun.followed_by(before).trace);
                        assert(begun.followed_by(all).failure == ended.failure);
                        let run = cubemap_texture::<D::Scalar>(tex_id, tex_cfg, faces);
                        assert(run == begun.followed_by(all));
                        assert(run.trace == begun.followed_by(before).trace);
                        assert(run.failure == Some(TextureError::ImageError(error)));
                        assert(gl.history() == old(gl).history() + run.trace);
                    }
                    return Err(TextureError::ImageError(error));
                },
            };
            let ghost img = dyn_img;
            let rgb_image = match Texture::prepare(dyn_img) {
                Some(pixels) => pixels,
                None => {
                    proof {
                        let ended = face_uploads::<D::Scalar>(tex_cfg, faces, taken + 1);
                        assert(ended.failure == Some(TextureError::ImageTooLarge));
                        assert(ended.trace == before.trace);
                        lemma_failed_uploads_stay_failed::<D::Scalar>(
                            tex_cfg,
                            faces,
                            taken + 1,
                            total as int,
                        );
                        let all = face_uploads::<D::Scalar>(tex_cfg, faces, faces.len() as int);
                        assert(all == ended);
                        assert(begun.followed_by(all).trace == begun.followed_by(before).trace);
                        assert(begun.followed_by(all).failure == ended.failure);
                        let run = cubemap_texture::<D::Scalar>(tex_id, tex_cfg, faces);
                        assert(run == begun.followed_by(all));
                        assert(run.trace == begun.followed_by(before).trace);
                        assert(run.failure == Some(TextureError::ImageTooLarge));
                        assert(gl.history() == old(gl).history() + run.trace);
                    }
                    return Err(TextureError::ImageTooLarge);
                },
            };
            Texture::upload_pixels(gl, ImageTarget::Face(cm_type), tex_cfg, rgb_image);
            proof {
                let next = face_uploads::<D::Scalar>(tex_cfg, faces, taken + 1);
                let upload = file_upload::<D::Scalar>(ImageTarget::Face(cm_type), tex_cfg, img);
                assert(next.trace == before.trace.push(upload));
                assert(begun.followed_by(next).trace == begun.followed_by(before).trace.push(
                    upload,
                ));
                assert(gl.history() == old(gl).history() + begun.followed_by(next).trace);
            }
            taken += 1;
        }
        let ghost uploaded = gl.history();
        let mut list = Vec::new();
        list.push(TextureSetting::WrapS(TextureWrap::Repeat));
        list.push(TextureSetting::WrapT(TextureWrap::Repeat));
        list.push(TextureSetting::WrapR(TextureWrap::Repeat));
        list.push(TextureSetting::MinFilter(TextureFilter::Linear));
        list.push(TextureSetting::MagFilter(TextureFilter::Linear));
        Texture::configure(gl, tex_cfg.tex_type, list);
        proof {
            assert(list@ == seq![
                TextureSetting::WrapS(TextureWrap::Repeat),
                TextureSetting::WrapT(TextureWrap::Repeat),
                TextureSetting::WrapR(TextureWrap::Repeat),
                TextureSetting::MinFilter(TextureFilter::Linear),
                TextureSetting::MagFilter(TextureFilter::Linear),
            ]);
            let run = cubemap_texture::<D::Scalar>(tex_id, tex_cfg, faces);
            assert(gl.history() == old(gl).history() + run.trace);
        }
        Ok(Texture { id: tex_id, tex_cfg })
    }

    /// Makes the texture of a framebuffer attachment: an empty image of the
    /// given width and height, attached to the bound framebuffer at
    /// `attachment`.
    pub fn from_framebuffer<D: Driver>(
        gl: &mut Gl<D>,
        width: i32,
        height: i32,
        tex_cfg: TexConfig,
        attachment: FrameBufferAttachment,
    ) -> (texture: Texture)
        ensures
            texture.config() == tex_cfg,
            final(gl).history() == old(gl).history() + attachment_texture(
                texture.handle(),
                tex_cfg,
                width,
                height,
                attachment,
            ),
    {
        let tex_id = Texture::allocate(gl, tex_cfg);
        gl.submit(
            GlCall::TexImage2D {
                target: ImageTarget::Texture(tex_cfg.tex_type),
                storage: tex_cfg.internal_fmt,
                width,
                height,
                format: tex_cfg.pix_data_fmt,
                data_type: tex_cfg.pix_type_fmt,
                pixels: None,
            },
        );
        let ghost defined = gl.history();
        let mut list = Vec::new();
        list.push(TextureSetting::MinFilter(TextureFilter::Linear));
        list.push(TextureSetting::MagFilter(TextureFilter::Linear));
        Texture::configure(gl, tex_cfg.tex_type, list);
        gl.submit(
            GlCall::FramebufferTexture2D { attachment, target: tex_cfg.tex_type, texture: tex_id },
        );
        proof {
            assert(list@ == seq![
                TextureSetting::MinFilter(TextureFilter::Linear),
                TextureSetting::MagFilter(TextureFilter::Linear),
            ]);
            assert(defined == old(gl).history() + allocation(tex_id, tex_cfg).push(
                image_upload(ImageTarget::Texture(tex_cfg.tex_type), tex_cfg, width, height, None),
            ));
            assert(gl.history() == old(gl).history() + attachment_texture(
                tex_id,
                tex_cfg,
                width,
                height,
                attachment,
            ));
        }
        Texture { id: tex_id, tex_cfg }
    }

    /// Makes `tex_unit` the active texture unit and binds the texture to its
    /// kind on that unit, in place of whatever was bound there.
    pub fn bind<D: Driver>(&self, gl: &mut Gl<D>, tex_unit: TextureUnit)
        ensures
            final(gl).history() == old(gl).history() + seq![
                sent(Command::ActiveTexture { unit: tex_unit }),
                sent(Command::BindTexture { target: self.config().tex_type, texture: self.handle() }),
            ],
    {
        gl.submit(GlCall::ActiveTexture { unit: tex_unit });
        gl.submit(GlCall::BindTexture { target: self.tex_cfg.tex_type, texture: self.id });
        proof {
            assert(gl.history() == old(gl).history() + seq![
                sent(Command::ActiveTexture { unit: tex_unit }),
                sent(
                    Command::BindTexture { target: self.config().tex_type, texture: self.handle() },
                ),
            ]);
        }
    }
}

/// Once the upload of the faces has failed, it stays as it is however many
/// more faces are counted.
pub proof fn lemma_failed_uploads_stay_failed<F>(
    cfg: TexConfig,
    faces: Seq<(Result<image::DynamicImage, image::ImageError>, CubemapTextureType)>,
    failed_at: int,
    count: int,
)
    requires
        0 <= failed_at <= count,
        face_uploads::<F>(cfg, faces, failed_at).failure is Some,
    ensures
        face_uploads::<F>(cfg, faces, count) == face_uploads::<F>(cfg, faces, failed_at),
    decreases count,
{
    if failed_at < count {
        lemma_failed_uploads_stay_failed::<F>(cfg, faces, failed_at, count - 1);
    }
}

} // verus!
