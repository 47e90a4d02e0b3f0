//! Sample plugins: mesh and shader descriptions, transformed into their
//! OpenGL forms by appending the backend's name.
use vstd::prelude::*;

use crate::capability::{Erased, Loader, LoaderRouter, TypeTag};

verus! {

/// Type identity of [`Mesh`].
pub const MESH: TypeTag = 1;

/// Type identity of [`Shader`].
pub const SHADER: TypeTag = 2;

/// Type identity of [`OpenGLMesh`].
pub const OPENGL_MESH: TypeTag = 3;

/// Type identity of [`OpenGLShader`].
pub const OPENGL_SHADER: TypeTag = 4;

/// A named mesh description.
#[derive(Debug, PartialEq, Eq)]
pub struct Mesh(pub String);

/// A named shader source.
#[derive(Debug, PartialEq, Eq)]
pub struct Shader(pub String);

/// A mesh ready for the OpenGL backend.
#[derive(Debug, PartialEq, Eq)]
pub struct OpenGLMesh(pub String);

/// A shader ready for the OpenGL backend.
#[derive(Debug, PartialEq, Eq)]
pub struct OpenGLShader(pub String);

/// The opaque values of this backend: one variant per concrete type.
#[derive(Debug, PartialEq, Eq)]
pub enum Asset {
    Mesh(Mesh),
    Shader(Shader),
    OpenGLMesh(OpenGLMesh),
    OpenGLShader(OpenGLShader),
}

impl Erased for Asset {
    open spec fn type_key(&self) -> TypeTag {
        match self {
            Asset::Mesh(_) => MESH,
            Asset::Shader(_) => SHADER,
            Asset::OpenGLMesh(_) => OPENGL_MESH,
            Asset::OpenGLShader(_) => OPENGL_SHADER,
        }
    }

    fn type_tag(&self) -> (r: TypeTag) {
        match self {
            Asset::Mesh(_) => MESH,
            Asset::Shader(_) => SHADER,
            Asset::OpenGLMesh(_) => OPENGL_MESH,
            Asset::OpenGLShader(_) => OPENGL_SHADER,
        }
    }
}

/// The text that the OpenGL form of a resource named `name` carries.
pub open spec fn opengl_name(name: Seq<char>) -> Seq<char> {
    name + " OpenGL"@
}

/// Returns a copy of `name` followed by the backend's name.
fn with_backend_suffix(name: &String) -> (r: String)
    ensures
        r@ == opengl_name(name@),
{
    let mut r = name.clone();
    r.append(" OpenGL");
    r
}

/// Turns a [`Mesh`] into an [`OpenGLMesh`].
#[derive(Clone, Copy, Debug)]
pub struct MeshLoader;

impl Loader<Mesh, OpenGLMesh> for MeshLoader {
    open spec fn creates(&self, t: Mesh, r: OpenGLMesh) -> bool {
        r.0@ == opengl_name(t.0@)
    }

    fn create(&self, t: &Mesh) -> (r: OpenGLMesh) {
        OpenGLMesh(with_backend_suffix(&t.0))
    }
}

/// Turns a [`Shader`] into an [`OpenGLShader`].
#[derive(Clone, Copy, Debug)]
pub struct ShaderLoader;

impl Loader<Shader, OpenGLShader> for ShaderLoader {
    open spec fn creates(&self, t: Shader, r: OpenGLShader) -> bool {
        r.0@ == opengl_name(t.0@)
    }

    fn create(&self, t: &Shader) -> (r: OpenGLShader) {
        OpenGLShader(with_backend_suffix(&t.0))
    }
}

/// The capabilities of this backend, as one type the store can hold.
#[derive(Clone, Copy, Debug)]
pub enum OpenGLLoader {
    Mesh(MeshLoader),
    Shader(ShaderLoader),
}

impl LoaderRouter<Asset> for OpenGLLoader {
    open spec fn raw_key(&self) -> TypeTag {
        match self {
            OpenGLLoader::Mesh(_) => MESH,
            OpenGLLoader::Shader(_) => SHADER,
        }
    }

    open spec fn routes(&self, raw: Asset, out: Asset) -> bool {
        match (self, raw, out) {
            (OpenGLLoader::Mesh(l), Asset::Mesh(m), Asset::OpenGLMesh(g)) => l.creates(m, g),
            (OpenGLLoader::Shader(l), Asset::Shader(s), Asset::OpenGLShader(g)) => l.creates(s, g),
            _ => false,
        }
    }

    fn raw_type_tag(&self) -> (r: TypeTag) {
        match self {
            OpenGLLoader::Mesh(_) => MESH,
            OpenGLLoader::Shader(_) => SHADER,
        }
    }

    fn enroute_create(&self, raw: &Asset) -> (out: Asset) {
        match self {
            OpenGLLoader::Mesh(l) => match raw {
                Asset::Mesh(m) => Asset::OpenGLMesh(l.create(m)),
                _ => {
                    assert(false);
                    Asset::OpenGLMesh(OpenGLMesh(String::new()))
                },
            },
            OpenGLLoader::Shader(l) => match raw {
                Asset::Shader(s) => Asset::OpenGLShader(l.create(s)),
                _ => {
                    assert(false);
                    Asset::OpenGLShader(OpenGLShader(String::new()))
                },
            },
        }
    }
}

} // verus!
