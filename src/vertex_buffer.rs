use vstd::prelude::*;
use crate::attribute::{AttributeType, attribute_size};
use crate::context::{Display, entries_without, persistent_supported};

verus! {

/// Describes the layout of each vertex in a vertex buffer.
///
/// The first element is the name of the binding, the second element is the offset
/// from the start of each vertex to this element, and the third element is the type.
pub type VertexFormat = Vec<(String, usize, AttributeType)>;

/// Every attribute of `format` ends within a vertex of `stride` bytes.
pub open spec fn format_fits(format: Seq<(String, usize, AttributeType)>, stride: nat) -> bool {
    forall|i: int|
        0 <= i < format.len() ==> #[trigger] format[i].1 + attribute_size(format[i].2) <= stride
}

/// The contents of a buffer after `data` has replaced the elements from `offset` on.
pub open spec fn written<T>(contents: Seq<T>, offset: int, data: Seq<T>) -> Seq<T> {
    contents.subrange(0, offset) + data + contents.subrange(offset + data.len(), contents.len() as int)
}

/// Reading back the whole buffer after writing at element 0 gives the written
/// elements first; where they fill the buffer, it gives exactly them.
pub proof fn lemma_write_then_read<T>(contents: Seq<T>, data: Seq<T>)
    requires
        data.len() <= contents.len(),
    ensures
        written(contents, 0, data).len() == contents.len(),
        written(contents, 0, data).subrange(0, data.len() as int) == data,
        data.len() == contents.len() ==> written(contents, 0, data) == data,
{
    assert(written(contents, 0, data).subrange(0, data.len() as int) =~= data);
    if data.len() == contents.len() {
        assert(written(contents, 0, data) =~= data);
    }
}

/// Trait for structures that represent a vertex.
pub trait Vertex: Copy + Sized {
    /// The layout of this element: one entry per field, in declaration order.
    ///
    /// An impl written outside Verus must still name this item; it is a ghost
    /// item, never called at run time.
    spec fn bindings_spec() -> Seq<(String, usize, AttributeType)>;

    /// Builds the `VertexFormat` representing the layout of this element.
    fn build_bindings(_hint: Option<Self>) -> (r: VertexFormat)
        ensures
            r@ == Self::bindings_spec(),
            format_fits(r@, vstd::layout::size_of::<Self>()),
    ;
}

/// The ways in which an operation on a vertex buffer is refused.
#[derive(Clone, Copy, Debug, PartialEq, Eq, Structural)]
pub enum VertexBufferError {
    /// Persistent mapping was asked for and the device does not support it.
    UnsupportedFeature,
    /// A range of elements goes past the end of the buffer.
    OutOfBounds,
    /// The buffer is already mapped.
    ConcurrentMappingViolation,
    /// The device cannot read buffers back.
    DeviceReadUnsupported,
}

/// A fence that the draw path must publish for the buffer `buffer_id` once the
/// device has finished reading it.
#[derive(Clone, Copy, Debug, PartialEq, Eq, Structural)]
pub struct FenceRequest {
    pub buffer_id: u32,
}

/// Describes the source to use for the vertices when drawing.
#[derive(Clone)]
pub enum VerticesSource<'a> {
    /// A buffer uploaded in the video memory.
    ///
    /// If the second parameter is `Some`, then a fence *must* be published for
    /// when the buffer stops being used.
    VertexBuffer(&'a VertexBufferAny, Option<FenceRequest>),
}

/// Objects that can be used as vertex sources.
pub trait IntoVerticesSource<'a> {
    /// Builds the `VerticesSource`.
    fn into_vertices_source(self) -> VerticesSource<'a>;
}

impl<'a> IntoVerticesSource<'a> for VerticesSource<'a> {
    fn into_vertices_source(self) -> (r: VerticesSource<'a>)
        ensures
            r == self,
    {
        self
    }
}

/// A list of vertices loaded in the graphics card's memory, whose element type
/// is not known.
///
/// Release it with `destroy`: a buffer that is merely dropped leaves the
/// context's cache entries that refer to it in place.
pub struct VertexBufferAny {
    id: u32,
    elements_count: usize,
    elements_size: usize,
    persistent: bool,
    readable: bool,
    bindings: VertexFormat,
}

impl VertexBufferAny {
    /// The device-object identity of the buffer.
    pub closed spec fn id(&self) -> u32 {
        self.id
    }

    /// The number of elements in the buffer.
    pub closed spec fn len(&self) -> nat {
        self.elements_count as nat
    }

    /// The number of bytes between two consecutive elements.
    pub closed spec fn stride(&self) -> nat {
        self.elements_size as nat
    }

    pub closed spec fn persistent(&self) -> bool {
        self.persistent
    }

    /// The device can read this buffer back.
    pub closed spec fn readable(&self) -> bool {
        self.readable
    }

    pub closed spec fn bindings_view(&self) -> Seq<(String, usize, AttributeType)> {
        self.bindings@
    }

    pub open spec fn wf(&self) -> bool {
        format_fits(self.bindings_view(), self.stride())
    }

    /// Returns the number of bytes between two consecutive elements in the buffer.
    pub fn get_elements_size(&self) -> (r: usize)
        ensures
            r == self.stride(),
    {
        self.elements_size
    }

    /// Returns the number of elements in the buffer.
    pub fn get_elements_count(&self) -> (r: usize)
        ensures
            r == self.len(),
    {
        self.elements_count
    }

    /// Returns the associated `VertexFormat`.
    pub fn get_bindings(&self) -> (r: &VertexFormat)
        ensures
            r@ == self.bindings_view(),
    {
        &self.bindings
    }

    /// Returns true if the buffer is mapped in a permanent way in memory.
    pub fn is_persistent(&self) -> (r: bool)
        ensures
            r == self.persistent(),
    {
        self.persistent
    }

    /// Returns the device-object identity of the buffer.
    pub fn get_id(&self) -> (r: u32)
        ensures
            r == self.id(),
    {
        self.id
    }

    /// Turns the vertex buffer into a `VertexBuffer` whose elements are `data`.
    ///
    /// An untyped buffer keeps its identity, layout and stride but no typed
    /// elements: without a reinterpreting cast there is no safe way to view its
    /// storage as `T`, so the caller hands the elements back.
    pub fn into_vertex_buffer<T: Copy>(self, data: Vec<T>) -> (r: VertexBuffer<T>)
        requires
            data@.len() == self.len(),
        ensures
            r.any() == self,
            r.contents() == data@,
            !r.is_mapped(),
    {
        VertexBuffer { buffer: self, data, mapped: false }
    }

    /// Builds the source through which the draw path reads this buffer; a
    /// persistent buffer asks for a fence.
    pub fn vertices_source(&self) -> (r: VerticesSource<'_>)
        ensures
            match r {
                VerticesSource::VertexBuffer(b, fence) => *b == *self && fence == (if self.persistent() {
                    Some(FenceRequest { buffer_id: self.id() })
                } else {
                    None::<FenceRequest>
                }),
            },
    {
        let fence = if self.persistent {
            Some(FenceRequest { buffer_id: self.id })
        } else {
            None
        };
        VerticesSource::VertexBuffer(self, fence)
    }

    /// Destroys the buffer: first removes from the context's cache every
    /// vertex-array configuration that refers to it, then releases it.
    pub fn destroy(self, display: &mut Display)
        ensures
            final(display).vao_cache() == entries_without(old(display).vao_cache(), self.id()),
            final(display).next_id() == old(display).next_id(),
            final(display).version_spec() == old(display).version_spec(),
            final(display).extensions_spec() == old(display).extensions_spec(),
    {
        display.invalidate_buffer(self.id);
    }
}

impl<'a> IntoVerticesSource<'a> for &'a VertexBufferAny {
    fn into_vertices_source(self) -> (r: VerticesSource<'a>)
        ensures
            match r {
                VerticesSource::VertexBuffer(b, fence) => *b == *self && fence == (if self.persistent() {
                    Some(FenceRequest { buffer_id: self.id() })
                } else {
                    None::<FenceRequest>
                }),
            },
    {
        self.vertices_source()
    }
}

/// A list of vertices loaded in the graphics card's memory.
///
/// Release a buffer with `destroy`, which purges the context's cache of the
/// configurations that refer to it; a buffer that is merely dropped leaves
/// those entries in place.
pub struct VertexBuffer<T> {
    buffer: VertexBufferAny,
    data: Vec<T>,
    mapped: bool,
}

/// A mapping of a buffer: the elements, lent out until the buffer is unmapped.
pub struct Mapping<T> {
    buffer_id: u32,
    elements: Vec<T>,
}

impl<T: Copy> Mapping<T> {
    pub closed spec fn view(&self) -> Seq<T> {
        self.elements@
    }

    /// The id of the buffer that was mapped.
    pub closed spec fn source_id(&self) -> u32 {
        self.buffer_id
    }

    /// Returns the number of mapped elements.
    pub fn len(&self) -> (r: usize)
        ensures
            r == self.view().len(),
    {
        self.elements.len()
    }

    /// Returns the element at `index`.
    pub fn get(&self, index: usize) -> (r: T)
        requires
            index < self.view().len(),
        ensures
            r == self.view()[index as int],
    {
        self.elements[index]
    }

    /// Replaces the element at `index`.
    pub fn set(&mut self, index: usize, value: T)
        requires
            index < old(self).view().len(),
        ensures
            final(self).view() == old(self).view().update(index as int, value),
            final(self).source_id() == old(self).source_id(),
    {
        self.elements.set(index, value);
    }
}

impl<T: Vertex> VertexBuffer<T> {
    fn build(display: &mut Display, data: Vec<T>, persistent: bool) -> (r: VertexBuffer<T>)
        requires
            old(display).can_allocate(),
        ensures
            r.wf(),
            r.contents() == data@,
            !r.is_mapped(),
            r.any().id() == old(display).next_id(),
            r.any().len() == data@.len(),
            r.any().stride() == vstd::layout::size_of::<T>(),
            r.any().bindings_view() == T::bindings_spec(),
            r.any().persistent() == persistent,
            r.any().readable() == old(display).extensions_spec().gl_read_buffer,
            final(display).next_id() == old(display).next_id() + 1,
            final(display).vao_cache() == old(display).vao_cache(),
            final(display).version_spec() == old(display).version_spec(),
            final(display).extensions_spec() == old(display).extensions_spec(),
    {
        let bindings = T::build_bindings(None);
        let id = display.allocate_buffer_id();
        let readable = display.get_extensions().gl_read_buffer;
        let elements_size = core::mem::size_of::<T>();
        VertexBuffer {
            buffer: VertexBufferAny {
                id,
                elements_count: data.len(),
                elements_size,
                persistent,
                readable,
                bindings,
            },
            data,
            mapped: false,
        }
    }

    /// Builds a new vertex buffer holding `data`.
    pub fn new(display: &mut Display, data: Vec<T>) -> (r: VertexBuffer<T>)
        requires
            old(display).can_allocate(),
        ensures
            r.wf(),
            r.contents() == data@,
            !r.is_mapped(),
            r.any().id() == old(display).next_id(),
            r.any().len() == data@.len(),
            r.any().stride() == vstd::layout::size_of::<T>(),
            r.any().bindings_view() == T::bindings_spec(),
            !r.any().persistent(),
            r.any().readable() == old(display).extensions_spec().gl_read_buffer,
            final(display).next_id() == old(display).next_id() + 1,
            final(display).vao_cache() == old(display).vao_cache(),
            final(display).version_spec() == old(display).version_spec(),
            final(display).extensions_spec() == old(display).extensions_spec(),
    {
        Self::build(display, data, false)
    }

    /// Builds a new vertex buffer holding `data`, meant to be modified often.
    /// The usage is a hint to the device only.
    pub fn new_dynamic(display: &mut Display, data: Vec<T>) -> (r: VertexBuffer<T>)
        requires
            old(display).can_allocate(),
        ensures
            r.wf(),
            r.contents() == data@,
            !r.is_mapped(),
            r.any().id() == old(display).next_id(),
            r.any().len() == data@.len(),
            r.any().stride() == vstd::layout::size_of::<T>(),
            r.any().bindings_view() == T::bindings_spec(),
            !r.any().persistent(),
            r.any().readable() == old(display).extensions_spec().gl_read_buffer,
            final(display).next_id() == old(display).next_id() + 1,
            final(display).vao_cache() == old(display).vao_cache(),
            final(display).version_spec() == old(display).version_spec(),
            final(display).extensions_spec() == old(display).extensions_spec(),
    {
        Self::build(display, data, false)
    }

    /// Builds a new vertex buffer with persistent mapping, or fails with
    /// `UnsupportedFeature` where the device does not support it.
    pub fn new_persistent(display: &mut Display, data: Vec<T>) -> (r: Result<
        VertexBuffer<T>,
        VertexBufferError,
    >)
        requires
            persistent_supported(old(display).version_spec(), old(display).extensions_spec())
                ==> old(display).can_allocate(),
        ensures
            persistent_supported(old(display).version_spec(), old(display).extensions_spec())
                <==> r is Ok,
            r is Err ==> r == Err::<VertexBuffer<T>, VertexBufferError>(
                VertexBufferError::UnsupportedFeature,
            ) && *final(display) == *old(display),
            r matches Ok(b) ==> {
                &&& b.wf()
                &&& b.contents() == data@
                &&& !b.is_mapped()
                &&& b.any().id() == old(display).next_id()
                &&& b.any().len() == data@.len()
                &&& b.any().stride() == vstd::layout::size_of::<T>()
                &&& b.any().bindings_view() == T::bindings_spec()
                &&& b.any().persistent()
                &&& b.any().readable() == old(display).extensions_spec().gl_read_buffer
                &&& final(display).next_id() == old(display).next_id() + 1
                &&& final(display).vao_cache() == old(display).vao_cache()
            },
    {
        match Self::new_persistent_if_supported(display, data) {
            Some(b) => Ok(b),
            None => Err(VertexBufferError::UnsupportedFeature),
        }
    }

    /// Builds a new vertex buffer with persistent mapping, or `None` if this is
    /// not supported.
    pub fn new_persistent_if_supported(display: &mut Display, data: Vec<T>) -> (r: Option<
        VertexBuffer<T>,
    >)
        requires
            persistent_supported(old(display).version_spec(), old(display).extensions_spec())
                ==> old(display).can_allocate(),
        ensures
            persistent_supported(old(display).version_spec(), old(display).extensions_spec())
                <==> r is Some,
            r is None ==> *final(display) == *old(display),
            r matches Some(b) ==> {
                &&& b.wf()
                &&& b.contents() == data@
                &&& !b.is_mapped()
                &&& b.any().id() == old(display).next_id()
                &&& b.any().len() == data@.len()
                &&& b.any().stride() == vstd::layout::size_of::<T>()
                &&& b.any().bindings_view() == T::bindings_spec()
                &&& b.any().persistent()
                &&& b.any().readable() == old(display).extensions_spec().gl_read_buffer
                &&& final(display).next_id() == old(display).next_id() + 1
                &&& final(display).vao_cache() == old(display).vao_cache()
            },
    {
        if !display.supports_persistent_mapping() {
            return None;
        }
        Some(Self::build(display, data, true))
    }
}

impl<T: Copy> VertexBuffer<T> {
    /// The buffer without its element type.
    pub closed spec fn any(&self) -> VertexBufferAny {
        self.buffer
    }

    /// The elements held by the buffer; empty while it is mapped.
    pub closed spec fn contents(&self) -> Seq<T> {
        self.data@
    }

    pub closed spec fn is_mapped(&self) -> bool {
        self.mapped
    }

    pub open spec fn wf(&self) -> bool {
        &&& self.any().wf()
        &&& !self.is_mapped() ==> self.contents().len() == self.any().len()
    }

    /// Builds a new vertex buffer from `data`, laid out as `bindings` says with
    /// `elements_size` bytes per element.
    pub fn new_raw(
        display: &mut Display,
        data: Vec<T>,
        bindings: VertexFormat,
        elements_size: usize,
    ) -> (r: VertexBuffer<T>)
        requires
            old(display).can_allocate(),
            format_fits(bindings@, elements_size as nat),
        ensures
            r.wf(),
            r.contents() == data@,
            !r.is_mapped(),
            r.any().id() == old(display).next_id(),
            r.any().len() == data@.len(),
            r.any().stride() == elements_size,
            r.any().bindings_view() == bindings@,
            !r.any().persistent(),
            r.any().readable() == old(display).extensions_spec().gl_read_buffer,
            final(display).next_id() == old(display).next_id() + 1,
            final(display).vao_cache() == old(display).vao_cache(),
            final(display).version_spec() == old(display).version_spec(),
            final(display).extensions_spec() == old(display).extensions_spec(),
    {
        let id = display.allocate_buffer_id();
        let readable = display.get_extensions().gl_read_buffer;
        VertexBuffer {
            buffer: VertexBufferAny {
                id,
                elements_count: data.len(),
                elements_size,
                persistent: false,
                readable,
                bindings,
            },
            data,
            mapped: false,
        }
    }

    /// Maps the buffer to allow access to its elements, until `unmap`.
    /// Fails if the buffer is already mapped.
    pub fn map(&mut self) -> (r: Result<Mapping<T>, VertexBufferError>)
        requires
            old(self).wf(),
        ensures
            final(self).wf(),
            final(self).any() == old(self).any(),
            old(self).is_mapped() ==> r == Err::<Mapping<T>, VertexBufferError>(
                VertexBufferError::ConcurrentMappingViolation,
            ) && *final(self) == *old(self),
            !old(self).is_mapped() ==> (r matches Ok(m) && m.view() == old(self).contents()
                && m.source_id() == old(self).any().id() && final(self).is_mapped()),
    {
        if self.mapped {
            return Err(VertexBufferError::ConcurrentMappingViolation);
        }
        let mut elements: Vec<T> = Vec::new();
        core::mem::swap(&mut self.data, &mut elements);
        self.mapped = true;
        Ok(Mapping { buffer_id: self.buffer.id, elements })
    }

    /// Ends a mapping of this buffer; the buffer then holds the mapped elements.
    pub fn unmap(&mut self, mapping: Mapping<T>)
        requires
            old(self).wf(),
            old(self).is_mapped(),
            mapping.source_id() == old(self).any().id(),
            mapping.view().len() == old(self).any().len(),
        ensures
            final(self).wf(),
            !final(self).is_mapped(),
            final(self).any() == old(self).any(),
            final(self).contents() == mapping.view(),
    {
        self.data = mapping.elements;
        self.mapped = false;
    }

    fn copy_range(&self, offset: usize, size: usize) -> (r: Vec<T>)
        requires
            offset + size <= self.contents().len(),
        ensures
            r@ == self.contents().subrange(offset as int, offset + size),
    {
        let mut out: Vec<T> = Vec::new();
        let n: usize = self.data.len();
        let mut i: usize = 0;
        while i < size
            invariant
                i <= size,
                n == self.data@.len(),
                offset + size <= self.data@.len(),
                out@ == self.data@.subrange(offset as int, offset + i),
            decreases size - i,
        {
            out.push(self.data[offset + i]);
            i = i + 1;
            assert(out@ =~= self.data@.subrange(offset as int, offset + i));
        }
        out
    }

    /// Reads the content of the buffer.
    pub fn read(&self) -> (r: Vec<T>)
        requires
            self.wf(),
            !self.is_mapped(),
            self.any().readable(),
        ensures
            r@ == self.contents(),
    {
        let r = self.copy_range(0, self.data.len());
        assert(self.data@.subrange(0, self.data@.len() as int) =~= self.data@);
        r
    }

    /// Reads the content of the buffer, or `None` if the device cannot read
    /// buffers back.
    pub fn read_if_supported(&self) -> (r: Option<Vec<T>>)
        requires
            self.wf(),
            !self.is_mapped(),
        ensures
            r is Some <==> self.any().readable(),
            r matches Some(v) ==> v@ == self.contents(),
    {
        if !self.buffer.readable {
            return None;
        }
        Some(self.read())
    }

    /// Reads `size` elements from element `offset` on. Fails with `OutOfBounds`
    /// if the range passes the end of the buffer, and otherwise with
    /// `DeviceReadUnsupported` if the device cannot read buffers back.
    pub fn read_slice(&self, offset: usize, size: usize) -> (r: Result<Vec<T>, VertexBufferError>)
        requires
            self.wf(),
            !self.is_mapped(),
        ensures
            offset + size > self.any().len() ==> r == Err::<Vec<T>, VertexBufferError>(
                VertexBufferError::OutOfBounds,
            ),
            offset + size <= self.any().len() && !self.any().readable() ==> r == Err::<
                Vec<T>,
                VertexBufferError,
            >(VertexBufferError::DeviceReadUnsupported),
            offset + size <= self.any().len() && self.any().readable() ==> (r matches Ok(v) && v@
                == self.contents().subrange(offset as int, offset + size)),
    {
        if offset > self.data.len() || size > self.data.len() - offset {
            return Err(VertexBufferError::OutOfBounds);
        }
        if !self.buffer.readable {
            return Err(VertexBufferError::DeviceReadUnsupported);
        }
        Ok(self.copy_range(offset, size))
    }

    /// Reads `size` elements from element `offset` on. Fails with `OutOfBounds`
    /// if the range passes the end of the buffer; otherwise gives `None` if the
    /// device cannot read buffers back.
    pub fn read_slice_if_supported(&self, offset: usize, size: usize) -> (r: Result<
        Option<Vec<T>>,
        VertexBufferError,
    >)
        requires
            self.wf(),
            !self.is_mapped(),
        ensures
            offset + size > self.any().len() <==> r is Err,
            r is Err ==> r == Err::<Option<Vec<T>>, VertexBufferError>(
                VertexBufferError::OutOfBounds,
            ),
            r matches Ok(o) ==> (o is Some <==> self.any().readable()),
            r matches Ok(Some(v)) ==> v@ == self.contents().subrange(offset as int, offset + size),
    {
        if offset > self.data.len() || size > self.data.len() - offset {
            return Err(VertexBufferError::OutOfBounds);
        }
        if !self.buffer.readable {
            return Ok(None);
        }
        Ok(Some(self.copy_range(offset, size)))
    }

    /// Replaces the elements from element `offset` on with `data`. Fails with
    /// `OutOfBounds`, changing nothing, if they would pass the end of the buffer.
    pub fn write(&mut self, offset: usize, data: Vec<T>) -> (r: Result<(), VertexBufferError>)
        requires
            old(self).wf(),
            !old(self).is_mapped(),
        ensures
            final(self).wf(),
            !final(self).is_mapped(),
            final(self).any() == old(self).any(),
            offset + data@.len() > old(self).any().len() <==> r is Err,
            r is Err ==> r == Err::<(), VertexBufferError>(VertexBufferError::OutOfBounds)
                && final(self).contents() == old(self).contents(),
            r is Ok ==> final(self).contents() == written(old(self).contents(), offset as int, data@),
    {
        if offset > self.data.len() || data.len() > self.data.len() - offset {
            return Err(VertexBufferError::OutOfBounds);
        }
        let ghost before = self.data@;
        let n: usize = self.data.len();
        let mut i: usize = 0;
        while i < data.len()
            invariant
                i <= data@.len(),
                n == before.len(),
                offset + data@.len() <= before.len(),
                self.data@.len() == before.len(),
                self.buffer == old(self).buffer,
                self.mapped == old(self).mapped,
                forall|j: int|
                    0 <= j < before.len() ==> #[trigger] self.data@[j] == if offset <= j < offset + i {
                        data@[j - offset]
                    } else {
                        before[j]
                    },
            decreases data@.len() - i,
        {
            self.data.set(offset + i, data[i]);
            i = i + 1;
        }
        assert(self.data@ =~= written(before, offset as int, data@));
        Ok(())
    }

    /// Returns true if the buffer is mapped in a permanent way in memory.
    pub fn is_persistent(&self) -> (r: bool)
        ensures
            r == self.any().persistent(),
    {
        self.buffer.is_persistent()
    }

    /// Returns the number of bytes between two consecutive elements in the buffer.
    pub fn get_elements_size(&self) -> (r: usize)
        ensures
            r == self.any().stride(),
    {
        self.buffer.get_elements_size()
    }

    /// Returns the associated `VertexFormat`.
    pub fn get_bindings(&self) -> (r: &VertexFormat)
        ensures
            r@ == self.any().bindings_view(),
    {
        self.buffer.get_bindings()
    }

    /// Returns the device-object identity of the buffer.
    pub fn get_id(&self) -> (r: u32)
        ensures
            r == self.any().id(),
    {
        self.buffer.get_id()
    }

    /// Discards the type information and turns the vertex buffer into a
    /// `VertexBufferAny`, the same device buffer.
    pub fn into_vertex_buffer_any(self) -> (r: VertexBufferAny)
        requires
            !self.is_mapped(),
        ensures
            r == self.any(),
            r.id() == self.any().id(),
    {
        self.buffer
    }

    /// Destroys the buffer, removing first every cached vertex-array
    /// configuration that refers to it.
    pub fn destroy(self, display: &mut Display)
        requires
            !self.is_mapped(),
        ensures
            final(display).vao_cache() == entries_without(old(display).vao_cache(), self.any().id()),
            final(display).next_id() == old(display).next_id(),
            final(display).version_spec() == old(display).version_spec(),
            final(display).extensions_spec() == old(display).extensions_spec(),
    {
        self.into_vertex_buffer_any().destroy(display);
    }
}

impl<'a, T: Copy> IntoVerticesSource<'a> for &'a VertexBuffer<T> {
    fn into_vertices_source(self) -> (r: VerticesSource<'a>)
        ensures
            match r {
                VerticesSource::VertexBuffer(b, fence) => *b == self.any() && fence == (if self.any().persistent() {
                    Some(FenceRequest { buffer_id: self.any().id() })
                } else {
                    None::<FenceRequest>
                }),
            },
    {
        self.buffer.vertices_source()
    }
}

} // verus!
