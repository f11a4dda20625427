//! The container of the assets that the engine has loaded, each kept under
//! a name of the caller's choice.

use vstd::prelude::*;
use std::rc::Rc;
use crate::driver::{Driver, Exchange, Gl};
use crate::error::RustyAceError;
use crate::shaders::{generation, AssemblyReport, CompiledShaderProgram, ShaderCompileError};
use crate::texture::cubemap::CubemapPaths;
use crate::texture::texture_configuration::TexConfig;
use crate::texture::{Texture, TextureError};

verus! {

/// Name of the directory, under the root of the assets, that holds the
/// shader sources.
pub const SHADER_DIRECTORY: &'static str = "shaders";

/// Name of the directory, under the root of the assets, that holds the
/// images of the textures.
pub const TEXTURE_DIRECTORY: &'static str = "textures";

/// What a list of named resources holds under each name: of two resources
/// of one name, the later one.
pub open spec fn held<T>(entries: Seq<(String, Rc<T>)>) -> Map<Seq<char>, T>
    decreases entries.len(),
{
    if entries.len() == 0 {
        Map::empty()
    } else {
        held(entries.drop_last()).insert(entries.last().0@, *entries.last().1)
    }
}

/// A name that no entry after `at` has is held with the resource of the
/// entry at `at`, if that entry has the name, and is not held at all if no
/// entry has it.
proof fn lemma_last_entry_is_held<T>(entries: Seq<(String, Rc<T>)>, name: Seq<char>, at: int)
    requires
        -1 <= at < entries.len(),
        at >= 0 ==> entries[at].0@ == name,
        forall|j: int| at < j < entries.len() ==> (#[trigger] entries[j]).0@ != name,
    ensures
        at >= 0 ==> held(entries).contains_key(name) && held(entries)[name] == *entries[at].1,
        at < 0 ==> !held(entries).contains_key(name),
    decreases entries.len(),
{
    if entries.len() > 0 {
        if at < entries.len() - 1 {
            let rest = entries.drop_last();
            assert(entries.last().0@ != name);
            assert forall|j: int| at < j < rest.len() implies (#[trigger] rest[j]).0@ != name by {
                assert(rest[j] == entries[j]);
            }
            lemma_last_entry_is_held(rest, name, at);
        }
    }
}

/// To put a resource in the place of the last entry of some name is to keep
/// the resource under that name.
proof fn lemma_replacing_the_last_entry<T>(
    entries: Seq<(String, Rc<T>)>,
    at: int,
    entry: (String, Rc<T>),
)
    requires
        0 <= at < entries.len(),
        entries[at].0@ == entry.0@,
        forall|j: int| at < j < entries.len() ==> (#[trigger] entries[j]).0@ != entry.0@,
    ensures
        held(entries.update(at, entry)) == held(entries).insert(entry.0@, *entry.1),
    decreases entries.len(),
{
    let changed = entries.update(at, entry);
    let rest = entries.drop_last();
    if at == entries.len() - 1 {
        assert(changed.drop_last() == rest);
        assert(held(changed) =~= held(entries).insert(entry.0@, *entry.1));
    } else {
        assert(changed.drop_last() == rest.update(at, entry));
        assert(changed.last() == entries.last());
        assert(entries.last().0@ != entry.0@);
        assert forall|j: int| at < j < rest.len() implies (#[trigger] rest[j]).0@ != entry.0@ by {
            assert(rest[j] == entries[j]);
        }
        lemma_replacing_the_last_entry(rest, at, entry);
        assert(held(changed) =~= held(entries).insert(entry.0@, *entry.1));
    }
}

/// Calls `Rc::clone`: the result is another handle on the same resource.
#[verifier::external_body]
fn share<T>(resource: &Rc<T>) -> (shared: Rc<T>)
    ensures
        shared == *resource,
{
    Rc::clone(resource)
}

/// The resources of one kind, each kept under a name. A resource that is
/// inserted under a name takes the place of the one that was kept under it.
pub struct Namespace<T> {
    entries: Vec<(String, Rc<T>)>,
}

impl<T> View for Namespace<T> {
    type V = Map<Seq<char>, T>;

    closed spec fn view(&self) -> Map<Seq<char>, T> {
        held(self.entries@)
    }
}

impl<T> Namespace<T> {
    /// A namespace that holds nothing.
    pub fn new() -> (names: Namespace<T>)
        ensures
            names@ == Map::<Seq<char>, T>::empty(),
    {
        Namespace { entries: Vec::new() }
    }

    /// The place of the last entry of the given name, if there is one.
    fn position(&self, name: &String) -> (place: Option<usize>)
        ensures
            match place {
                Some(at) => {
                    &&& at < self.entries@.len()
                    &&& self.entries@[at as int].0@ == name@
                    &&& forall|j: int|
                        at < j < self.entries@.len() ==> (#[trigger] self.entries@[j]).0@ != name@
                },
                None => forall|j: int|
                    0 <= j < self.entries@.len() ==> (#[trigger] self.entries@[j]).0@ != name@,
            },
    {
        let mut i = self.entries.len();
        while i > 0
            invariant
                i <= self.entries@.len(),
                forall|j: int|
                    i <= j < self.entries@.len() ==> (#[trigger] self.entries@[j]).0@ != name@,
            decreases i,
        {
            i -= 1;
            if self.entries[i].0 == *name {
                return Some(i);
            }
        }
        None
    }

    /// Keeps `resource` under `name`, in place of whatever was kept under
    /// that name.
    pub fn insert(&mut self, name: String, resource: Rc<T>)
        ensures
            final(self)@ == old(self)@.insert(name@, *resource),
    {
        match self.position(&name) {
            Some(at) => {
                proof {
                    lemma_replacing_the_last_entry(self.entries@, at as int, (name, resource));
                }
                self.entries.set(at, (name, resource));
            },
            None => {
                self.entries.push((name, resource));
                proof {
                    assert(self.entries@.drop_last() == old(self).entries@);
                }
            },
        }
    }

    /// The resource that is kept under `name`, if one is.
    pub fn find(&self, name: &str) -> (found: Option<Rc<T>>)
        ensures
            self@.contains_key(name@) ==> found is Some && *found->Some_0 == self@[name@],
            !self@.contains_key(name@) ==> found is None,
    {
        let key = name.to_owned();
        match self.position(&key) {
            Some(at) => {
                proof {
                    lemma_last_entry_is_held(self.entries@, name@, at as int);
                }
                Some(share(&self.entries[at].1))
            },
            None => {
                proof {
                    lemma_last_entry_is_held(self.entries@, name@, -1);
                }
                None
            },
        }
    }
}

/// The assets that the engine has loaded: programs, textures and materials,
/// each kind in a namespace of its own, and the root directory under which
/// the files of the assets lie. `M` is the type of a material.
pub struct AssetContainer<M> {
    asset_path: String,
    materials: Namespace<M>,
    shader_programs: Namespace<CompiledShaderProgram>,
    textures: Namespace<Texture>,
}

impl<M> AssetContainer<M> {
    /// The root directory of the assets.
    pub closed spec fn root(&self) -> Seq<char> {
        self.asset_path@
    }

    /// The programs held, by name.
    pub closed spec fn programs(&self) -> Map<Seq<char>, CompiledShaderProgram> {
        self.shader_programs@
    }

    /// The textures held, by name.
    pub closed spec fn textures(&self) -> Map<Seq<char>, Texture> {
        self.textures@
    }

    /// The materials held, by name.
    pub closed spec fn materials(&self) -> Map<Seq<char>, M> {
        self.materials@
    }

    /// A container that holds nothing, for the assets under the given root
    /// directory.
    pub fn new(asset_container_location: &str) -> (assets: AssetContainer<M>)
        ensures
            assets.root() == asset_container_location@,
            assets.programs() == Map::<Seq<char>, CompiledShaderProgram>::empty(),
            assets.textures() == Map::<Seq<char>, Texture>::empty(),
            assets.materials() == Map::<Seq<char>, M>::empty(),
    {
        AssetContainer {
            asset_path: asset_container_location.to_owned(),
            materials: Namespace::new(),
            shader_programs: Namespace::new(),
            textures: Namespace::new(),
        }
    }

    /// Where the shader source `file` lies: under the shader directory of
    /// the root, as the parts of a path from the root on.
    pub fn shader_path(&self, file: &str) -> (parts: Vec<String>)
        ensures
            parts@.len() == 3,
            parts@[0]@ == self.root(),
            parts@[1]@ == SHADER_DIRECTORY@,
            parts@[2]@ == file@,
    {
        let mut parts = Vec::new();
        parts.push(self.asset_path.clone());
        parts.push(SHADER_DIRECTORY.to_owned());
        parts.push(file.to_owned());
        parts
    }

    /// Where the image or the cubemap directory `file` lies: under the
    /// texture directory of the root, as the parts of a path from the root
    /// on.
    pub fn texture_path(&self, file: &str) -> (parts: Vec<String>)
        ensures
            parts@.len() == 3,
            parts@[0]@ == self.root(),
            parts@[1]@ == TEXTURE_DIRECTORY@,
            parts@[2]@ == file@,
    {
        let mut parts = Vec::new();
        parts.push(self.asset_path.clone());
        parts.push(TEXTURE_DIRECTORY.to_owned());
        parts.push(file.to_owned());
        parts
    }

    /// Makes a program from its source files, as
    /// [`CompiledShaderProgram::generate_program`] does, and keeps it under
    /// `name`. Where the program cannot be made, the container is left as it
    /// was.
    pub fn add_program<D: Driver>(
        &mut self,
        gl: &mut Gl<D>,
        name: &str,
        vertex: Result<Vec<String>, std::io::Error>,
        fragment: Result<Vec<String>, std::io::Error>,
        geometry: Option<Result<Vec<String>, std::io::Error>>,
    ) -> (added: Result<Rc<CompiledShaderProgram>, RustyAceError>)
        ensures
            final(self).root() == old(self).root(),
            final(self).textures() == old(self).textures(),
            final(self).materials() == old(self).materials(),
            exists|told: AssemblyReport|
                {
                    let build = #[trigger] generation::<D::Scalar>(vertex, fragment, geometry, told);
                    &&& final(gl).history() == old(gl).history() + (build.run.trace
                        + build.releases())
                    &&& match added {
                        Ok(program) => {
                            &&& build.run.failure is None
                            &&& program.handle() == told.program
                            &&& final(self).programs() == old(self).programs().insert(
                                name@,
                                *program,
                            )
                        },
                        Err(failure) => {
                            &&& build.run.failure is Some
                            &&& final(self).programs() == old(self).programs()
                            &&& match failure {
                                RustyAceError::OpenGLError(driver) => build.run.failure == Some(
                                    ShaderCompileError::OpenGLError(driver)@,
                                ),
                                RustyAceError::IOError(file) => build.run.failure == Some(
                                    ShaderCompileError::IOError(file)@,
                                ),
                                _ => false,
                            }
                        },
                    }
                },
    {
        match CompiledShaderProgram::generate_program(gl, vertex, fragment, geometry) {
            Ok(csp) => {
                let csp_rc = Rc::new(csp);
                self.shader_programs.insert(name.to_owned(), share(&csp_rc));
                Ok(csp_rc)
            },
            Err(error) => Err(RustyAceError::from_program(error)),
        }
    }

    /// The program that is kept under `name`, or the failure to find one.
    pub fn find_program(&self, name: &str) -> (found: Result<
        Rc<CompiledShaderProgram>,
        RustyAceError,
    >)
        ensures
            self.programs().contains_key(name@) ==> found is Ok && *found->Ok_0
                == self.programs()[name@],
            !self.programs().contains_key(name@) ==> {
                &&& found matches Err(RustyAceError::AssetNotFound(missing)) && missing@ == name@
            },
    {
        match self.shader_programs.find(name) {
            Some(program) => Ok(program),
            None => Err(RustyAceError::AssetNotFound(name.to_owned())),
        }
    }

    /// Keeps a texture under `name`, in place of whatever texture was kept
    /// under that name, or hands on the failure to make it and leaves the
    /// container as it was.
    pub fn keep_texture(&mut self, name: &str, made: Result<Texture, TextureError>) -> (added:
        Result<Rc<Texture>, RustyAceError>)
        ensures
            final(self).root() == old(self).root(),
            final(self).programs() == old(self).programs(),
            final(self).materials() == old(self).materials(),
            match made {
                Ok(texture) => {
                    &&& added is Ok
                    &&& *added->Ok_0 == texture
                    &&& final(self).textures() == old(self).textures().insert(name@, texture)
                },
                Err(error) => {
                    &&& added is Err
                    &&& added->Err_0 == RustyAceError::from_texture_spec(error)
                    &&& final(self).textures() == old(self).textures()
                },
            },
    {
        match made {
            Ok(texture) => {
                let new_tex = Rc::new(texture);
                self.textures.insert(name.to_owned(), share(&new_tex));
                Ok(new_tex)
            },
            Err(error) => Err(RustyAceError::from_texture(error)),
        }
    }

    /// Makes a texture of an image, as [`Texture::from_file`] does, and
    /// keeps it under `name`.
    pub fn add_texture<D: Driver>(
        &mut self,
        gl: &mut Gl<D>,
        name: &str,
        image: Result<image::DynamicImage, image::ImageError>,
        texture_cfg: TexConfig,
    ) -> (added: Result<Rc<Texture>, RustyAceError>)
        ensures
            final(self).root() == old(self).root(),
            final(self).programs() == old(self).programs(),
            final(self).materials() == old(self).materials(),
            !texture_cfg.is_valid() ==> {
                &&& added matches Err(RustyAceError::TextureError(TextureError::BadTextureConfig))
                &&& final(self).textures() == old(self).textures()
                &&& final(gl).history() == old(gl).history()
            },
            texture_cfg.is_valid() && image is Err ==> {
                &&& added matches Err(RustyAceError::ImageError(error)) && error == image->Err_0
                &&& final(self).textures() == old(self).textures()
                &&& final(gl).history() == old(gl).history()
            },
            texture_cfg.is_valid() && image is Ok && !crate::texture::uploadable(image->Ok_0) ==> {
                &&& added matches Err(RustyAceError::TextureError(TextureError::ImageTooLarge))
                &&& final(self).textures() == old(self).textures()
                &&& final(gl).history() == old(gl).history()
            },
            texture_cfg.is_valid() && image is Ok && crate::texture::uploadable(image->Ok_0) ==> {
                &&& added is Ok
                &&& added->Ok_0.config() == texture_cfg
                &&& final(self).textures() == old(self).textures().insert(name@, *added->Ok_0)
                &&& final(gl).history() == old(gl).history() + crate::texture::file_texture(
                    added->Ok_0.handle(),
                    texture_cfg,
                    image->Ok_0,
                )
            },
    {
        let made = Texture::from_file(gl, image, texture_cfg);
        self.keep_texture(name, made)
    }

    /// Makes a cubemap of the six images of a cubemap directory, as
    /// [`Texture::cubemap_from_files`] does, and keeps it under `name`. Where
    /// a file of the directory was not found, nothing is asked of the driver
    /// and the failure to find it is handed on.
    pub fn add_cubemap<D: Driver>(
        &mut self,
        gl: &mut Gl<D>,
        name: &str,
        images: Result<
            CubemapPaths<Result<image::DynamicImage, image::ImageError>>,
            std::io::Error,
        >,
        texture_cfg: TexConfig,
    ) -> (added: Result<Rc<Texture>, RustyAceError>)
        ensures
            final(self).root() == old(self).root(),
            final(self).programs() == old(self).programs(),
            final(self).materials() == old(self).materials(),
            added is Ok ==> final(self).textures() == old(self).textures().insert(
                name@,
                *added->Ok_0,
            ),
            added is Err ==> final(self).textures() == old(self).textures(),
            images is Err ==> {
                &&& added matches Err(RustyAceError::IOError(error)) && error == images->Err_0
                &&& final(gl).history() == old(gl).history()
            },
            images is Ok && !texture_cfg.is_valid() ==> {
                &&& added matches Err(RustyAceError::TextureError(TextureError::BadTextureConfig))
                &&& final(gl).history() == old(gl).history()
            },
            images is Ok && texture_cfg.is_valid() ==> exists|id: u32|
                {
                    let run = #[trigger] crate::texture::cubemap_texture::<D::Scalar>(
                        id,
                        texture_cfg,
                        images->Ok_0.entries(),
                    );
                    &&& final(gl).history() == old(gl).history() + run.trace
                    &&& match added {
                        Ok(texture) => run.failure is None && texture.handle() == id
                            && texture.config() == texture_cfg,
                        Err(failure) => run.failure is Some
                            && failure == RustyAceError::from_texture_spec(run.failure->Some_0),
                    }
                },
    {
        let faces = match images {
            Ok(faces) => faces,
            Err(error) => return Err(RustyAceError::IOError(error)),
        };
        let made = Texture::cubemap_from_files(gl, faces, texture_cfg);
        self.keep_texture(name, made)
    }

    /// The texture that is kept under `name`, or the failure to find one.
    pub fn find_texture(&self, name: &str) -> (found: Result<Rc<Texture>, RustyAceError>)
        ensures
            self.textures().contains_key(name@) ==> found is Ok && *found->Ok_0
                == self.textures()[name@],
            !self.textures().contains_key(name@) ==> {
                &&& found matches Err(RustyAceError::AssetNotFound(missing)) && missing@ == name@
            },
    {
        match self.textures.find(name) {
            Some(texture) => Ok(texture),
            None => Err(RustyAceError::AssetNotFound(name.to_owned())),
        }
    }

    /// Keeps the material `mat` under `name`, in place of whatever material
    /// was kept under that name.
    pub fn add_material(&mut self, name: &str, mat: M)
        ensures
            final(self).root() == old(self).root(),
            final(self).programs() == old(self).programs(),
            final(self).textures() == old(self).textures(),
            final(self).materials() == old(self).materials().insert(name@, mat),
    {
        self.materials.insert(name.to_owned(), Rc::new(mat));
    }

    /// The material that is kept under `name`, if one is.
    pub fn find_material(&self, name: &str) -> (found: Option<Rc<M>>)
        ensures
            self.materials().contains_key(name@) ==> found is Some && *found->Some_0
                == self.materials()[name@],
            !self.materials().contains_key(name@) ==> found is None,
    {
        self.materials.find(name)
    }
}

} // verus!
