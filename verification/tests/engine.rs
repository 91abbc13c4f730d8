use wtvr3d::error::Error;
use wtvr3d::mesh::Mesh;
use wtvr3d::mesh_data::{Buffer, MeshData};

#[test]
fn error_messages() {
    assert_eq!(Error::WebGlError.message(), "A WebGl Operation Failed.");
    assert_eq!(Error::UniformError.message(), "An uniform could not be set.");
    assert_eq!(
        Error::UnconstructedValue.message(),
        "Trying to use a raw, unconstructed value."
    );
    assert_eq!(Error::MisingData.message(), "Trying to use a missing asset.");
    assert_eq!(Error::MisingAsset.message(), "Trying to use a missing asset.");
    assert_eq!(
        Error::UnknownLocation.message(),
        "Trying to bind an attribute or uniform of unknown location"
    );
    assert_eq!(
        Error::UnknownTextureNumber.message(),
        "Trying to bind a texture uniform without a texture number"
    );
    assert_eq!(
        Error::Unimplemented.message(),
        "Trying to use unimplemented feature."
    );
    assert_eq!(Error::Unknown.message(), "An unknown error has occured.");
    assert_eq!(Error::SingularMatrix.message(), "Given matrix is not invertible!");
}

#[test]
fn mesh_data_bookkeeping() {
    let mut data = MeshData::new(String::from("cube"), 36);
    assert_eq!(data.get_id(), "cube");
    assert_eq!(data.get_vertex_count(), 36);
    assert_eq!(data.get_buffers().len(), 0);
    data.push_buffer(Buffer::new(String::from("a_position")));
    data.push_buffer(Buffer::new(String::from("a_normal")));
    assert_eq!(data.get_buffers().len(), 2);
    assert_eq!(data.get_buffers()[0].get_attribute_name(), "a_position");
    let found = data.get_buffer("a_normal");
    assert_eq!(found.unwrap().get_attribute_name(), "a_normal");
    assert!(data.get_buffer("a_tex_coordinates").is_none());
}

#[test]
fn mesh_carries_its_data() {
    let data = MeshData::new(String::from("sphere"), 96);
    let mesh = Mesh::new(data);
    assert_eq!(mesh.data().get_id(), "sphere");
    assert_eq!(mesh.data().get_vertex_count(), 96);
}
