use vstd::prelude::*;

verus! {

/// A version of the graphics API: major, then minor.
#[derive(Clone, Copy, Debug, PartialEq, Eq, Structural)]
pub struct GlVersion(pub u8, pub u8);

/// The extensions that the device reports, as far as vertex buffers care.
#[derive(Clone, Copy, Debug, PartialEq, Eq, Structural)]
pub struct ExtensionsList {
    /// Immutable buffer storage, which persistent mapping needs below version 4.4.
    pub gl_arb_buffer_storage: bool,
    /// Reading the contents of a buffer back to the host.
    pub gl_read_buffer: bool,
}

/// Key of a cached vertex-array configuration: the vertex buffer's id, the
/// program's id and the index buffer's id.
pub type VaoKey = (u32, u32, u32);

/// `a` is an earlier version than `b`.
pub open spec fn version_before(a: GlVersion, b: GlVersion) -> bool {
    a.0 < b.0 || (a.0 == b.0 && a.1 < b.1)
}

/// Persistent mapping needs version 4.4, or the buffer-storage extension.
pub open spec fn persistent_supported(v: GlVersion, e: ExtensionsList) -> bool {
    !version_before(v, GlVersion(4, 4)) || e.gl_arb_buffer_storage
}

/// The entries of `cache` whose key does not name `buffer`, in their order.
pub open spec fn entries_without(cache: Seq<(VaoKey, u32)>, buffer: u32) -> Seq<(VaoKey, u32)>
    decreases cache.len(),
{
    if cache.len() == 0 {
        cache
    } else {
        let rest = entries_without(cache.drop_last(), buffer);
        if cache.last().0.0 == buffer {
            rest
        } else {
            rest.push(cache.last())
        }
    }
}

/// The number of entries of `cache` whose key names `buffer`.
pub open spec fn entries_naming(cache: Seq<(VaoKey, u32)>, buffer: u32) -> nat
    decreases cache.len(),
{
    if cache.len() == 0 {
        0
    } else {
        entries_naming(cache.drop_last(), buffer) + if cache.last().0.0 == buffer {
            1nat
        } else {
            0nat
        }
    }
}

/// Invalidating a buffer removes exactly the cached entries whose key names it:
/// an entry stays if and only if it was there and names another buffer, and
/// as many entries go as named the buffer.
pub proof fn lemma_invalidation_exact(cache: Seq<(VaoKey, u32)>, buffer: u32)
    ensures
        forall|e: (VaoKey, u32)|
            #[trigger] entries_without(cache, buffer).contains(e) <==> (cache.contains(e) && e.0.0
                != buffer),
        entries_without(cache, buffer).len() + entries_naming(cache, buffer) == cache.len(),
    decreases cache.len(),
{
    if cache.len() > 0 {
        let init = cache.drop_last();
        lemma_invalidation_exact(init, buffer);
        assert(cache =~= init.push(cache.last()));
        assert forall|e: (VaoKey, u32)| cache.contains(e) <==> (init.contains(e) || e == cache.last()) by {
            if cache.contains(e) {
                let i = choose|i: int| 0 <= i < cache.len() && cache[i] == e;
                if i < cache.len() - 1 {
                    assert(init[i] == e);
                }
            }
            if init.contains(e) {
                let i = choose|i: int| 0 <= i < init.len() && init[i] == e;
                assert(cache[i] == e);
            }
            if e == cache.last() {
                assert(cache[cache.len() - 1] == e);
            }
        }
        let rest = entries_without(init, buffer);
        assert forall|e: (VaoKey, u32)| rest.push(cache.last()).contains(e) <==> (rest.contains(e) || e == cache.last()) by {
            let p = rest.push(cache.last());
            if p.contains(e) {
                let i = choose|i: int| 0 <= i < p.len() && p[i] == e;
                if i < rest.len() {
                    assert(rest[i] == e);
                }
            }
            if rest.contains(e) {
                let i = choose|i: int| 0 <= i < rest.len() && rest[i] == e;
                assert(p[i] == e);
            }
            if e == cache.last() {
                assert(p[rest.len() as int] == e);
            }
        }
        assert forall|e: (VaoKey, u32)|
            #[trigger] entries_without(cache, buffer).contains(e) <==> (cache.contains(e) && e.0.0
                != buffer) by {
            assert(rest.contains(e) <==> (init.contains(e) && e.0.0 != buffer));
            if cache.last().0.0 == buffer {
                assert(entries_without(cache, buffer) == rest);
            } else {
                assert(entries_without(cache, buffer) == rest.push(cache.last()));
            }
        }
    } else {
        assert forall|e: (VaoKey, u32)|
            #[trigger] entries_without(cache, buffer).contains(e) <==> (cache.contains(e) && e.0.0
                != buffer) by {
            assert(!cache.contains(e));
        }
    }
}

/// The device context: its capabilities, the ids it hands to new buffers, and
/// the cache of vertex-array configurations built by the draw path.
pub struct Display {
    version: GlVersion,
    extensions: ExtensionsList,
    next_buffer_id: u32,
    vertex_array_objects: Vec<(VaoKey, u32)>,
}

impl Display {
    /// The cache of vertex-array configurations, in insertion order.
    pub closed spec fn vao_cache(&self) -> Seq<(VaoKey, u32)> {
        self.vertex_array_objects@
    }

    /// The id that the next buffer will get.
    pub closed spec fn next_id(&self) -> u32 {
        self.next_buffer_id
    }

    pub closed spec fn version_spec(&self) -> GlVersion {
        self.version
    }

    pub closed spec fn extensions_spec(&self) -> ExtensionsList {
        self.extensions
    }

    /// Another buffer id can be handed out.
    pub open spec fn can_allocate(&self) -> bool {
        self.next_id() < u32::MAX
    }

    /// Builds a context reporting the given version and extensions, with an
    /// empty cache.
    pub fn new(version: GlVersion, extensions: ExtensionsList) -> (r: Display)
        ensures
            r.version_spec() == version,
            r.extensions_spec() == extensions,
            r.next_id() == 1,
            r.vao_cache() == Seq::<(VaoKey, u32)>::empty(),
    {
        Display { version, extensions, next_buffer_id: 1, vertex_array_objects: Vec::new() }
    }

    /// Returns the version that the device reports.
    pub fn get_version(&self) -> (r: GlVersion)
        ensures
            r == self.version_spec(),
    {
        self.version
    }

    /// Returns the extensions that the device reports.
    pub fn get_extensions(&self) -> (r: ExtensionsList)
        ensures
            r == self.extensions_spec(),
    {
        self.extensions
    }

    /// Returns whether buffers with persistent mapping can be created.
    pub fn supports_persistent_mapping(&self) -> (r: bool)
        ensures
            r == persistent_supported(self.version_spec(), self.extensions_spec()),
    {
        let v = self.version;
        let before = v.0 < 4 || (v.0 == 4 && v.1 < 4);
        !before || self.extensions.gl_arb_buffer_storage
    }

    /// Hands out a fresh buffer id.
    pub(crate) fn allocate_buffer_id(&mut self) -> (r: u32)
        requires
            old(self).can_allocate(),
        ensures
            r == old(self).next_id(),
            final(self).next_id() == old(self).next_id() + 1,
            final(self).vao_cache() == old(self).vao_cache(),
            final(self).version_spec() == old(self).version_spec(),
            final(self).extensions_spec() == old(self).extensions_spec(),
    {
        let id = self.next_buffer_id;
        self.next_buffer_id = id + 1;
        id
    }

    /// Records a vertex-array configuration under `key`.
    pub fn register_vertex_array(&mut self, key: VaoKey, vao: u32)
        ensures
            final(self).vao_cache() == old(self).vao_cache().push((key, vao)),
            final(self).next_id() == old(self).next_id(),
            final(self).version_spec() == old(self).version_spec(),
            final(self).extensions_spec() == old(self).extensions_spec(),
    {
        self.vertex_array_objects.push((key, vao));
    }

    /// Returns the number of cached vertex-array configurations.
    pub fn vertex_array_count(&self) -> (r: usize)
        ensures
            r == self.vao_cache().len(),
    {
        self.vertex_array_objects.len()
    }

    /// Returns whether a configuration is cached under `key`.
    pub fn has_vertex_array(&self, key: VaoKey) -> (r: bool)
        ensures
            r == exists|i: int| 0 <= i < self.vao_cache().len() && #[trigger] self.vao_cache()[i].0 == key,
    {
        let mut i: usize = 0;
        while i < self.vertex_array_objects.len()
            invariant
                i <= self.vertex_array_objects@.len(),
                forall|j: int| 0 <= j < i ==> self.vertex_array_objects@[j].0 != key,
            decreases self.vertex_array_objects@.len() - i,
        {
            let k = self.vertex_array_objects[i].0;
            if k.0 == key.0 && k.1 == key.1 && k.2 == key.2 {
                assert(self.vao_cache()[i as int].0 == key);
                return true;
            }
            i = i + 1;
        }
        false
    }

    /// Removes every cached configuration whose key names the vertex buffer
    /// `buffer`, and keeps the others in their order.
    pub fn invalidate_buffer(&mut self, buffer: u32)
        ensures
            final(self).vao_cache() == entries_without(old(self).vao_cache(), buffer),
            final(self).next_id() == old(self).next_id(),
            final(self).version_spec() == old(self).version_spec(),
            final(self).extensions_spec() == old(self).extensions_spec(),
    {
        let mut kept: Vec<(VaoKey, u32)> = Vec::new();
        let mut i: usize = 0;
        while i < self.vertex_array_objects.len()
            invariant
                i <= self.vertex_array_objects@.len(),
                kept@ == entries_without(self.vertex_array_objects@.subrange(0, i as int), buffer),
            decreases self.vertex_array_objects@.len() - i,
        {
            let entry = self.vertex_array_objects[i];
            proof {
                let s = self.vertex_array_objects@;
                assert(s.subrange(0, i as int + 1).drop_last() =~= s.subrange(0, i as int));
            }
            if entry.0.0 != buffer {
                kept.push(entry);
            }
            i = i + 1;
        }
        proof {
            assert(self.vertex_array_objects@.subrange(0, i as int) =~= self.vertex_array_objects@);
        }
        self.vertex_array_objects = kept;
    }
}

} // verus!
