use asset_loader::capability::{Erased, Loader, LoaderRouter};
use asset_loader::opengl::{
    Asset, Mesh, MeshLoader, OpenGLLoader, OpenGLMesh, OpenGLShader, Shader, ShaderLoader, MESH,
    OPENGL_MESH, OPENGL_SHADER, SHADER,
};
use asset_loader::pile::{PileError, ResourcePile};

fn mesh(name: &str) -> Asset {
    Asset::Mesh(Mesh(name.to_string()))
}

fn shader(name: &str) -> Asset {
    Asset::Shader(Shader(name.to_string()))
}

fn gl_mesh(name: &str) -> Asset {
    Asset::OpenGLMesh(OpenGLMesh(name.to_string()))
}

fn gl_shader(name: &str) -> Asset {
    Asset::OpenGLShader(OpenGLShader(name.to_string()))
}

#[test]
fn two_kinds_share_one_counter() {
    let mut pile: ResourcePile<Asset, OpenGLLoader> = ResourcePile::new();
    pile.add_loader(OpenGLLoader::Mesh(MeshLoader));
    assert_eq!(pile.add_resource(mesh("Cube")), Ok(0));
    assert_eq!(pile.add_resource(mesh("Sphere")), Ok(1));
    pile.add_loader(OpenGLLoader::Shader(ShaderLoader));
    assert_eq!(pile.add_resource(shader("Pbr")), Ok(2));
    assert_eq!(pile.get_transformed_resource(MESH, OPENGL_MESH, 0), Ok(&gl_mesh("Cube OpenGL")));
    assert_eq!(pile.get_transformed_resource(MESH, OPENGL_MESH, 1), Ok(&gl_mesh("Sphere OpenGL")));
    assert_eq!(pile.get_transformed_resource(SHADER, OPENGL_SHADER, 2), Ok(&gl_shader("Pbr OpenGL")));
}

#[test]
fn get_after_add_yields_what_the_loader_creates() {
    let mut pile: ResourcePile<Asset, OpenGLLoader> = ResourcePile::new();
    pile.add_loader(OpenGLLoader::Shader(ShaderLoader));
    let id = pile.add_resource(shader("Toon")).unwrap();
    let expected = OpenGLLoader::Shader(ShaderLoader).enroute_create(&shader("Toon"));
    assert_eq!(pile.get_transformed_resource(SHADER, OPENGL_SHADER, id), Ok(&expected));
    assert_eq!(expected, gl_shader("Toon OpenGL"));
}

#[test]
fn ids_increase_across_interleaved_kinds() {
    let mut pile: ResourcePile<Asset, OpenGLLoader> = ResourcePile::new();
    pile.add_loader(OpenGLLoader::Mesh(MeshLoader));
    pile.add_loader(OpenGLLoader::Shader(ShaderLoader));
    let mut last: Option<u64> = None;
    for i in 0..10 {
        let raw = if i % 3 == 0 { shader("S") } else { mesh("M") };
        let id = pile.add_resource(raw).unwrap();
        if let Some(prev) = last {
            assert!(id > prev);
        }
        last = Some(id);
    }
    assert_eq!(last, Some(9));
}

#[test]
fn unproduced_id_is_unknown() {
    let mut pile: ResourcePile<Asset, OpenGLLoader> = ResourcePile::new();
    assert_eq!(pile.get_transformed_resource(MESH, OPENGL_MESH, 0), Err(PileError::UnknownSlot));
    pile.add_loader(OpenGLLoader::Mesh(MeshLoader));
    pile.add_resource(mesh("Cube")).unwrap();
    assert_eq!(pile.get_transformed_resource(MESH, OPENGL_MESH, 1), Err(PileError::UnknownSlot));
    assert_eq!(
        pile.get_transformed_resource(MESH, OPENGL_MESH, u64::MAX),
        Err(PileError::UnknownSlot)
    );
}

#[test]
fn id_under_another_raw_type_is_unknown() {
    let mut pile: ResourcePile<Asset, OpenGLLoader> = ResourcePile::new();
    pile.add_loader(OpenGLLoader::Mesh(MeshLoader));
    let id = pile.add_resource(mesh("Cube")).unwrap();
    assert_eq!(pile.get_transformed_resource(SHADER, OPENGL_MESH, id), Err(PileError::UnknownSlot));
}

#[test]
fn adding_without_capability_fails_and_changes_nothing() {
    let mut pile: ResourcePile<Asset, OpenGLLoader> = ResourcePile::new();
    assert_eq!(pile.add_resource(mesh("Cube")), Err(PileError::MissingCapability));
    pile.add_loader(OpenGLLoader::Mesh(MeshLoader));
    assert_eq!(pile.add_resource(shader("Pbr")), Err(PileError::MissingCapability));
    assert_eq!(pile.add_resource(mesh("Cube")), Ok(0));
}

#[test]
fn wrong_transformed_type_is_a_mismatch() {
    let mut pile: ResourcePile<Asset, OpenGLLoader> = ResourcePile::new();
    pile.add_loader(OpenGLLoader::Mesh(MeshLoader));
    let id = pile.add_resource(mesh("Cube")).unwrap();
    assert_eq!(
        pile.get_transformed_resource(MESH, OPENGL_SHADER, id),
        Err(PileError::TypeMismatch)
    );
    assert_eq!(pile.get_transformed_resource(MESH, MESH, id), Err(PileError::TypeMismatch));
}

#[test]
fn registering_again_replaces_the_loader() {
    let mut pile: ResourcePile<Asset, OpenGLLoader> = ResourcePile::new();
    pile.add_loader(OpenGLLoader::Mesh(MeshLoader));
    pile.add_loader(OpenGLLoader::Mesh(MeshLoader));
    assert_eq!(pile.add_resource(mesh("Cube")), Ok(0));
    assert_eq!(pile.get_transformed_resource(MESH, OPENGL_MESH, 0), Ok(&gl_mesh("Cube OpenGL")));
}

#[test]
fn empty_name_gets_only_the_suffix() {
    assert_eq!(MeshLoader.create(&Mesh(String::new())), OpenGLMesh(" OpenGL".to_string()));
    assert_eq!(ShaderLoader.create(&Shader("Pbr".to_string())), OpenGLShader("Pbr OpenGL".to_string()));
}

#[test]
fn type_tags_follow_the_variant() {
    assert_eq!(mesh("a").type_tag(), MESH);
    assert_eq!(shader("a").type_tag(), SHADER);
    assert_eq!(gl_mesh("a").type_tag(), OPENGL_MESH);
    assert_eq!(gl_shader("a").type_tag(), OPENGL_SHADER);
    assert_eq!(OpenGLLoader::Mesh(MeshLoader).raw_type_tag(), MESH);
    assert_eq!(OpenGLLoader::Shader(ShaderLoader).raw_type_tag(), SHADER);
}

#[test]
fn next_resource_id_counts_successful_adds() {
    let mut pile: ResourcePile<Asset, OpenGLLoader> = ResourcePile::new();
    assert_eq!(pile.next_resource_id(), 0);
    pile.add_loader(OpenGLLoader::Mesh(MeshLoader));
    pile.add_resource(mesh("Cube")).unwrap();
    let _ = pile.add_resource(shader("Pbr"));
    assert_eq!(pile.next_resource_id(), 1);
}
