use glium::attribute::{Attribute, AttributeType};
use glium::context::{Display, ExtensionsList, GlVersion};
use glium::vertex_buffer::{
    FenceRequest, IntoVerticesSource, Vertex, VertexBuffer, VertexBufferError, VertexFormat,
    VerticesSource,
};

#[derive(Clone, Copy, Debug, PartialEq)]
struct Rec {
    position: [f32; 3],
    texcoords: [f32; 2],
}

impl Vertex for Rec {
    // A ghost item: Verus reasons about it, and nothing calls it at run time.
    fn bindings_spec() -> vstd::seq::Seq<(String, usize, AttributeType)> {
        unreachable!()
    }

    fn build_bindings(_hint: Option<Rec>) -> VertexFormat {
        vec![
            (String::from("position"), 0, AttributeType::F32F32F32),
            (String::from("texcoords"), 12, AttributeType::F32F32),
        ]
    }
}

fn rec(k: f32) -> Rec {
    Rec { position: [k, k + 1.0, k + 2.0], texcoords: [k * 2.0, k * 3.0] }
}

fn extensions(storage: bool, read: bool) -> ExtensionsList {
    ExtensionsList { gl_arb_buffer_storage: storage, gl_read_buffer: read }
}

fn display() -> Display {
    Display::new(GlVersion(3, 3), extensions(false, true))
}

#[test]
fn attribute_types_resolve_per_type() {
    assert_eq!(<i8 as Attribute>::get_type(None), AttributeType::I8);
    assert_eq!(<u8 as Attribute>::get_type(None), AttributeType::U8);
    assert_eq!(<(i16, i16) as Attribute>::get_type(None), AttributeType::I16I16);
    assert_eq!(<[i16; 2] as Attribute>::get_type(None), AttributeType::I16I16);
    assert_eq!(<[u16; 3] as Attribute>::get_type(None), AttributeType::U16U16U16);
    assert_eq!(<(i32, i32, i32, i32) as Attribute>::get_type(None), AttributeType::I32I32I32I32);
    assert_eq!(<[u32; 4] as Attribute>::get_type(None), AttributeType::U32U32U32U32);
    assert_eq!(<u32 as Attribute>::get_type(None), <u32 as Attribute>::get_type(None));
}

#[test]
fn attribute_sizes() {
    assert_eq!(AttributeType::I8.size(), 1);
    assert_eq!(AttributeType::U16U16U16.size(), 6);
    assert_eq!(AttributeType::I32I32.size(), 8);
    assert_eq!(AttributeType::F32F32F32F32.size(), 16);
}

#[test]
fn layout_fits_record_stride() {
    let mut d = display();
    let b = VertexBuffer::new(&mut d, vec![rec(0.0), rec(1.0)]);
    assert_eq!(b.get_elements_size(), 20);
    let bindings = b.get_bindings();
    assert_eq!(bindings, &Rec::build_bindings(None));
    assert_eq!(bindings.len(), 2);
    let c = VertexBuffer::new_dynamic(&mut d, vec![rec(0.0)]);
    assert_eq!(c.get_bindings(), bindings);
    assert!(!c.is_persistent());
    for (_, offset, ty) in bindings.iter() {
        assert!(offset + ty.size() <= b.get_elements_size());
    }
}

#[test]
fn empty_layout_is_accepted() {
    let mut d = display();
    let b: VertexBuffer<u32> = VertexBuffer::new_raw(&mut d, vec![1, 2], Vec::new(), 4);
    assert_eq!(b.get_bindings().len(), 0);
    assert_eq!(b.read(), vec![1, 2]);
}

#[test]
fn write_whole_then_read_round_trips() {
    let mut d = display();
    let mut b = VertexBuffer::new(&mut d, vec![rec(0.0), rec(1.0), rec(2.0)]);
    let data = vec![rec(7.0), rec(8.0), rec(9.0)];
    assert_eq!(b.write(0, data.clone()), Ok(()));
    assert_eq!(b.read(), data);
}

#[test]
fn write_shorter_prefix_keeps_the_rest() {
    let mut d = display();
    let mut b = VertexBuffer::new(&mut d, vec![rec(0.0), rec(1.0), rec(2.0)]);
    assert_eq!(b.write(0, vec![rec(5.0)]), Ok(()));
    assert_eq!(b.read(), vec![rec(5.0), rec(1.0), rec(2.0)]);
}

#[test]
fn write_boundary() {
    let mut d = display();
    let mut b = VertexBuffer::new(&mut d, vec![rec(0.0), rec(1.0), rec(2.0)]);
    assert_eq!(b.write(1, vec![rec(4.0), rec(5.0)]), Ok(()));
    assert_eq!(b.read(), vec![rec(0.0), rec(4.0), rec(5.0)]);
    assert_eq!(b.write(2, vec![rec(6.0), rec(7.0)]), Err(VertexBufferError::OutOfBounds));
    assert_eq!(b.write(4, Vec::new()), Err(VertexBufferError::OutOfBounds));
    assert_eq!(b.write(3, Vec::new()), Ok(()));
    assert_eq!(b.read(), vec![rec(0.0), rec(4.0), rec(5.0)]);
}

#[test]
fn erasing_keeps_identity() {
    let mut d = display();
    let first = VertexBuffer::new(&mut d, vec![rec(0.0)]);
    let b = VertexBuffer::new(&mut d, vec![rec(0.0), rec(1.0)]);
    assert_ne!(first.get_id(), b.get_id());
    let id = b.get_id();
    let any = b.into_vertex_buffer_any();
    assert_eq!(any.get_id(), id);
    assert_eq!(any.get_elements_size(), 20);
    assert_eq!(any.get_elements_count(), 2);
    assert_eq!(any.get_bindings().len(), 2);
    let back: VertexBuffer<Rec> = any.into_vertex_buffer(vec![rec(3.0), rec(4.0)]);
    assert_eq!(back.get_id(), id);
    assert_eq!(back.read(), vec![rec(3.0), rec(4.0)]);
}

#[test]
fn destroy_removes_exactly_its_cache_entries() {
    let mut d = display();
    let other = VertexBuffer::new(&mut d, vec![rec(0.0)]);
    let b = VertexBuffer::new(&mut d, vec![rec(1.0)]);
    let id = b.get_id();
    let other_id = other.get_id();
    d.register_vertex_array((id, 1, 0), 10);
    d.register_vertex_array((other_id, 1, 0), 11);
    d.register_vertex_array((id, 2, 5), 12);
    assert_eq!(d.vertex_array_count(), 3);
    b.destroy(&mut d);
    assert_eq!(d.vertex_array_count(), 1);
    assert!(d.has_vertex_array((other_id, 1, 0)));
    assert!(!d.has_vertex_array((id, 1, 0)));
    assert!(!d.has_vertex_array((id, 2, 5)));
    other.into_vertex_buffer_any().destroy(&mut d);
    assert_eq!(d.vertex_array_count(), 0);
}

#[test]
fn three_records_write_then_read_slice() {
    let mut d = display();
    let mut b = VertexBuffer::new(&mut d, vec![rec(0.0), rec(1.0), rec(2.0)]);
    assert_eq!(b.get_elements_size(), 20);
    assert_eq!(b.write(1, vec![rec(9.0)]), Ok(()));
    assert_eq!(b.read_slice(1, 1), Ok(vec![rec(9.0)]));
    assert_eq!(b.read_slice(2, 2), Err(VertexBufferError::OutOfBounds));
    assert_eq!(b.read_slice_if_supported(0, 2), Ok(Some(vec![rec(0.0), rec(9.0)])));
    assert_eq!(b.read_slice_if_supported(2, 2), Err(VertexBufferError::OutOfBounds));
}

#[test]
fn persistent_refused_on_old_device() {
    let mut d = display();
    assert!(!d.supports_persistent_mapping());
    assert!(matches!(
        VertexBuffer::new_persistent(&mut d, vec![rec(0.0)]),
        Err(VertexBufferError::UnsupportedFeature)
    ));
    assert!(VertexBuffer::new_persistent_if_supported(&mut d, vec![rec(0.0)]).is_none());
}

#[test]
fn persistent_accepted_with_version_or_extension() {
    let mut d = Display::new(GlVersion(4, 4), extensions(false, true));
    let b = VertexBuffer::new_persistent(&mut d, vec![rec(0.0)]).unwrap();
    assert!(b.is_persistent());
    let mut e = Display::new(GlVersion(3, 3), extensions(true, true));
    let c = VertexBuffer::new_persistent_if_supported(&mut e, vec![rec(0.0)]).unwrap();
    assert!(c.is_persistent());
    let mut f = Display::new(GlVersion(4, 3), extensions(false, true));
    assert!(VertexBuffer::new_persistent_if_supported(&mut f, vec![rec(0.0)]).is_none());
    assert_eq!(f.get_version(), GlVersion(4, 3));
    assert_eq!(f.get_extensions(), extensions(false, true));
}

#[test]
fn second_map_is_refused() {
    let mut d = display();
    let mut b = VertexBuffer::new(&mut d, vec![rec(0.0), rec(1.0)]);
    let mut m = b.map().unwrap();
    assert!(matches!(b.map(), Err(VertexBufferError::ConcurrentMappingViolation)));
    assert_eq!(m.len(), 2);
    assert_eq!(m.get(1), rec(1.0));
    m.set(0, rec(6.0));
    b.unmap(m);
    assert_eq!(b.read(), vec![rec(6.0), rec(1.0)]);
    assert!(b.map().is_ok());
}

#[test]
fn readback_unsupported() {
    let mut d = Display::new(GlVersion(3, 3), extensions(false, false));
    let b = VertexBuffer::new(&mut d, vec![rec(0.0), rec(1.0)]);
    assert_eq!(b.read_if_supported(), None);
    assert_eq!(b.read_slice(0, 1), Err(VertexBufferError::DeviceReadUnsupported));
    assert_eq!(b.read_slice(1, 2), Err(VertexBufferError::OutOfBounds));
    assert_eq!(b.read_slice_if_supported(0, 1), Ok(None));
    assert_eq!(b.read_slice_if_supported(2, 1), Err(VertexBufferError::OutOfBounds));
}

#[test]
fn vertices_source_fence_only_when_persistent() {
    let mut d = Display::new(GlVersion(4, 5), extensions(false, true));
    let plain = VertexBuffer::new_dynamic(&mut d, vec![rec(0.0)]);
    let persistent = VertexBuffer::new_persistent(&mut d, vec![rec(0.0)]).unwrap();
    match (&plain).into_vertices_source() {
        VerticesSource::VertexBuffer(b, fence) => {
            assert_eq!(b.get_id(), plain.get_id());
            assert_eq!(fence, None);
        }
    }
    match (&persistent).into_vertices_source() {
        VerticesSource::VertexBuffer(b, fence) => {
            assert_eq!(b.get_id(), persistent.get_id());
            assert_eq!(fence, Some(FenceRequest { buffer_id: persistent.get_id() }));
        }
    }
}
