use vstd::prelude::*;

verus! {

/// Number of 32-bit words in one packed light record.
pub const RECORD_WORDS: usize = 32;

/// Size in bytes of one packed light record; record `i` starts at byte
/// `i * RECORD_SIZE` of the light buffer.
pub const RECORD_SIZE: u64 = 128;

/// Size in bytes of the view-projection block at the start of a record.
pub const PROJ_SIZE: u64 = 64;

/// Bit pattern of the single-precision value 0.9, the default inner cone cosine.
pub const DEFAULT_LIMITCOS_INNER: u32 = 0x3F66_6666;

/// Bit pattern of the single-precision value 1.0, the default outer cone cosine.
pub const DEFAULT_LIMITCOS_OUTER: u32 = 0x3F80_0000;

/// A point or spot light.
///
/// Every real-valued field holds the bit pattern of an IEEE-754 single,
/// exactly as it is laid out in GPU memory; `view_proj` is the light-space
/// view-projection matrix for the light's shadow map, sixteen values in
/// column-major order.
#[derive(Clone, Copy, Debug)]
pub struct Light {
    pub id: usize,
    pub position: [u32; 3],
    pub color: [u32; 3],
    pub intensity: u32,
    pub radius: u32,
    pub is_spotlight: bool,
    pub limitcos_inner: u32,
    pub limitcos_outer: u32,
    pub limitdir: [u32; 3],
    pub view_proj: [u32; 16],
}

/// The packed GPU record of a light: 32 words, 128 bytes.
#[derive(Clone, Copy, Debug)]
pub struct LightRaw {
    pub proj: [u32; 16],
    pub position: [u32; 3],
    pub padding: u32,
    pub color: [u32; 3],
    pub intensity: u32,
    pub radius: u32,
    pub is_spotlight: u32,
    pub limitcos_inner: u32,
    pub limitcos_outer: u32,
    pub limitdir: [u32; 3],
    pub padding1: u32,
}

impl LightRaw {
    /// The record's words in memory order.
    pub open spec fn words(&self) -> Seq<u32> {
        self.proj@ + self.position@ + seq![self.padding] + self.color@ + seq![
            self.intensity,
            self.radius,
            self.is_spotlight,
            self.limitcos_inner,
            self.limitcos_outer,
        ] + self.limitdir@ + seq![self.padding1]
    }

    /// The record's words in memory order, ready to be copied to the GPU.
    pub fn to_words(&self) -> (r: Vec<u32>)
        ensures
            r@ == self.words(),
            r@.len() == RECORD_WORDS,
    {
        let mut v: Vec<u32> = Vec::new();
        let mut i: usize = 0;
        while i < 16
            invariant
                i <= 16,
                v@ == self.proj@.subrange(0, i as int),
            decreases 16 - i,
        {
            v.push(self.proj[i]);
            i = i + 1;
            assert(v@ =~= self.proj@.subrange(0, i as int));
        }
        assert(v@ =~= self.proj@);
        v.push(self.position[0]);
        v.push(self.position[1]);
        v.push(self.position[2]);
        v.push(self.padding);
        v.push(self.color[0]);
        v.push(self.color[1]);
        v.push(self.color[2]);
        v.push(self.intensity);
        v.push(self.radius);
        v.push(self.is_spotlight);
        v.push(self.limitcos_inner);
        v.push(self.limitcos_outer);
        v.push(self.limitdir[0]);
        v.push(self.limitdir[1]);
        v.push(self.limitdir[2]);
        v.push(self.padding1);
        assert(v@ =~= self.words());
        v
    }
}

impl Light {
    /// The packed record of this light.
    pub open spec fn raw(&self) -> LightRaw {
        LightRaw {
            proj: self.view_proj,
            position: self.position,
            padding: 0,
            color: self.color,
            intensity: self.intensity,
            radius: self.radius,
            is_spotlight: if self.is_spotlight { 1 } else { 0 },
            limitcos_inner: self.limitcos_inner,
            limitcos_outer: self.limitcos_outer,
            limitdir: self.limitdir,
            padding1: 0,
        }
    }

    /// A point light: not a spot light, with the default cone cosines and a
    /// zero cone direction.
    pub fn new(
        id: usize,
        position: [u32; 3],
        color: [u32; 3],
        intensity: u32,
        radius: u32,
        view_proj: [u32; 16],
    ) -> (r: Light)
        ensures
            r.id == id,
            r.position == position,
            r.color == color,
            r.intensity == intensity,
            r.radius == radius,
            !r.is_spotlight,
            r.limitcos_inner == DEFAULT_LIMITCOS_INNER,
            r.limitcos_outer == DEFAULT_LIMITCOS_OUTER,
            r.limitdir@ == seq![0u32, 0u32, 0u32],
            r.view_proj == view_proj,
    {
        let r = Light {
            id,
            position,
            color,
            intensity,
            radius,
            is_spotlight: false,
            limitcos_inner: DEFAULT_LIMITCOS_INNER,
            limitcos_outer: DEFAULT_LIMITCOS_OUTER,
            limitdir: [0, 0, 0],
            view_proj,
        };
        assert(r.limitdir@ =~= seq![0u32, 0u32, 0u32]);
        r
    }

    /// Packs the light into its GPU record. The record depends on the light's
    /// fields alone; both padding words are zero.
    pub fn to_raw(&self) -> (r: LightRaw)
        ensures
            r == self.raw(),
    {
        LightRaw {
            proj: self.view_proj,
            position: self.position,
            padding: 0,
            color: self.color,
            intensity: self.intensity,
            radius: self.radius,
            is_spotlight: if self.is_spotlight {
                1
            } else {
                0
            },
            limitcos_inner: self.limitcos_inner,
            limitcos_outer: self.limitcos_outer,
            limitdir: self.limitdir,
            padding1: 0,
        }
    }
}

/// Two lights with the same fields pack into the same words: packing is a
/// function of the light alone.
pub proof fn lemma_to_raw_deterministic(a: Light, b: Light)
    requires
        a == b,
    ensures
        a.raw() == b.raw(),
        a.raw().words() == b.raw().words(),
{
}

/// Byte offset of record `index` in the light buffer.
pub open spec fn record_offset(index: int) -> int {
    index * RECORD_SIZE as int
}

/// The words of a buffer holding `records`, one record after another.
pub open spec fn buffer_words(records: Seq<LightRaw>) -> Seq<u32> {
    records.map_values(|x: LightRaw| x.words()).flatten()
}

/// The four bytes of `w`: least significant first when `little` holds,
/// most significant first otherwise.
pub open spec fn word_bytes(w: u32, little: bool) -> Seq<u8> {
    let b0 = (w % 0x100) as u8;
    let b1 = ((w / 0x100) % 0x100) as u8;
    let b2 = ((w / 0x1_0000) % 0x100) as u8;
    let b3 = (w / 0x100_0000) as u8;
    if little {
        seq![b0, b1, b2, b3]
    } else {
        seq![b3, b2, b1, b0]
    }
}

/// The bytes of `words`, one word after another, each in the given order.
pub open spec fn bytes_of_words(words: Seq<u32>, little: bool) -> Seq<u8> {
    words.map_values(|w: u32| word_bytes(w, little)).flatten()
}

/// Relies on bytemuck::cast_slice from `u32` to `u8`: the words seen as
/// bytes, four per word in the machine's byte order, which is little- or
/// big-endian; the cast cannot fail since bytes have no alignment and any
/// byte count is whole.
#[verifier::external_body]
fn words_to_bytes(words: &Vec<u32>) -> (r: Vec<u8>)
    ensures
        r@.len() == 4 * words@.len(),
        r@ == bytes_of_words(words@, true) || r@ == bytes_of_words(words@, false),
{
    bytemuck::cast_slice::<u32, u8>(words.as_slice()).to_vec()
}

/// One upload into the light buffer: `words` go to byte `offset`.
#[derive(Clone, Debug)]
pub struct BufferWrite {
    pub offset: u64,
    pub words: Vec<u32>,
}

impl BufferWrite {
    /// The bytes to upload: the words, four bytes each in the machine's
    /// byte order.
    pub fn bytes(&self) -> (r: Vec<u8>)
        ensures
            r@.len() == 4 * self.words@.len(),
            r@ == bytes_of_words(self.words@, true) || r@ == bytes_of_words(self.words@, false),
    {
        words_to_bytes(&self.words)
    }
}

/// The CPU-side image of the light buffer: record `i` belongs to the light
/// with index `i`, which is also the light's shadow-map layer.
#[derive(Clone, Debug)]
pub struct LightBuffer {
    pub records: Vec<LightRaw>,
}

impl LightBuffer {
    /// The buffer's size in bytes.
    pub open spec fn size_spec(&self) -> int {
        self.records@.len() * RECORD_SIZE as int
    }

    /// Holds the record of every light, in order; the GPU buffer is
    /// `lights.len() * RECORD_SIZE` bytes.
    pub fn new(lights: &Vec<Light>) -> (r: LightBuffer)
        ensures
            r.records@.len() == lights@.len(),
            forall|i: int| 0 <= i < lights@.len() ==> r.records@[i] == #[trigger] lights@[i].raw(),
    {
        let mut records: Vec<LightRaw> = Vec::new();
        let mut i: usize = 0;
        while i < lights.len()
            invariant
                i <= lights@.len(),
                records@.len() == i,
                forall|k: int| 0 <= k < i ==> records@[k] == #[trigger] lights@[k].raw(),
            decreases lights@.len() - i,
        {
            records.push(lights[i].to_raw());
            i = i + 1;
        }
        LightBuffer { records }
    }

    /// The number of records the buffer holds.
    pub fn light_count(&self) -> (r: usize)
        ensures
            r == self.records@.len(),
    {
        self.records.len()
    }

    /// The buffer's size in bytes.
    pub fn size(&self) -> (r: u64)
        requires
            self.size_spec() <= u64::MAX,
        ensures
            r == self.size_spec(),
    {
        self.records.len() as u64 * RECORD_SIZE
    }

    /// All words of the buffer, record after record.
    pub fn contents(&self) -> (r: Vec<u32>)
        ensures
            r@ == buffer_words(self.records@),
            r@.len() == self.records@.len() * RECORD_WORDS,
    {
        let mut v: Vec<u32> = Vec::new();
        let mut i: usize = 0;
        while i < self.records.len()
            invariant
                i <= self.records@.len(),
                v@ == buffer_words(self.records@.subrange(0, i as int)),
                v@.len() == i * RECORD_WORDS,
            decreases self.records@.len() - i,
        {
            let mut w = self.records[i].to_words();
            v.append(&mut w);
            proof {
                let f = |x: LightRaw| x.words();
                let s = self.records@.subrange(0, i as int);
                assert(self.records@.subrange(0, i + 1).map_values(f) =~= s.map_values(f).push(
                    self.records@[i as int].words(),
                ));
                s.map_values(f).lemma_flatten_push(self.records@[i as int].words());
            }
            i = i + 1;
        }
        assert(self.records@.subrange(0, i as int) =~= self.records@);
        v
    }

    /// The whole buffer as bytes, for its first upload: every record's
    /// words in order, four bytes each in the machine's byte order.
    pub fn bytes(&self) -> (r: Vec<u8>)
        ensures
            r@.len() == self.size_spec(),
            r@ == bytes_of_words(buffer_words(self.records@), true) || r@ == bytes_of_words(
                buffer_words(self.records@),
                false,
            ),
    {
        words_to_bytes(&self.contents())
    }

    /// Rewrites the record of every light in `lights` at its fixed offset and
    /// returns the uploads to perform, one per light: the `i`-th writes exactly
    /// one record (RECORD_SIZE bytes) at byte `i * RECORD_SIZE`. Records past
    /// `lights.len()` are left as they were.
    pub fn repopulate_lights(&mut self, lights: &Vec<Light>) -> (writes: Vec<BufferWrite>)
        requires
            lights@.len() <= old(self).records@.len(),
            old(self).size_spec() <= u64::MAX,
        ensures
            final(self).records@.len() == old(self).records@.len(),
            forall|i: int|
                0 <= i < lights@.len() ==> final(self).records@[i] == #[trigger] lights@[i].raw(),
            forall|i: int|
                lights@.len() <= i < old(self).records@.len() ==> final(self).records@[i]
                    == #[trigger] old(self).records@[i],
            writes@.len() == lights@.len(),
            forall|i: int|
                0 <= i < writes@.len() ==> (#[trigger] writes@[i]).offset == record_offset(i)
                    && writes@[i].words@ == lights@[i].raw().words()
                    && writes@[i].words@.len() * 4 == RECORD_SIZE,
    {
        let mut writes: Vec<BufferWrite> = Vec::new();
        let mut i: usize = 0;
        while i < lights.len()
            invariant
                i <= lights@.len(),
                lights@.len() <= old(self).records@.len(),
                old(self).size_spec() <= u64::MAX,
                self.records@.len() == old(self).records@.len(),
                forall|k: int| 0 <= k < i ==> self.records@[k] == #[trigger] lights@[k].raw(),
                forall|k: int|
                    i <= k < old(self).records@.len() ==> self.records@[k]
                        == #[trigger] old(self).records@[k],
                writes@.len() == i,
                forall|k: int|
                    0 <= k < i ==> (#[trigger] writes@[k]).offset == record_offset(k)
                        && writes@[k].words@ == lights@[k].raw().words()
                        && writes@[k].words@.len() * 4 == RECORD_SIZE,
            decreases lights@.len() - i,
        {
            let raw = lights[i].to_raw();
            self.records.set(i, raw);
            let words = raw.to_words();
            proof {
                let n = self.records@.len() as int;
                assert(i * RECORD_SIZE <= n * RECORD_SIZE) by (nonlinear_arith)
                    requires
                        i < n,
                ;
            }
            writes.push(BufferWrite { offset: i as u64 * RECORD_SIZE, words });
            i = i + 1;
        }
        writes
    }
}

/// The uploads of a repopulation touch disjoint byte ranges: the write for
/// light `i` covers exactly `[i * RECORD_SIZE, (i + 1) * RECORD_SIZE)`, lies
/// within a buffer of `n` records, and overlaps no other light's range.
pub proof fn lemma_writes_disjoint(n: int, i: int, j: int)
    requires
        0 <= i < n,
        0 <= j < n,
        i != j,
    ensures
        record_offset(i) + RECORD_SIZE <= n * RECORD_SIZE,
        record_offset(i) + RECORD_SIZE <= record_offset(j) || record_offset(j) + RECORD_SIZE
            <= record_offset(i),
{
    assert(record_offset(i) + RECORD_SIZE <= n * RECORD_SIZE) by (nonlinear_arith)
        requires
            0 <= i < n,
    ;
    if i < j {
        assert(record_offset(i) + RECORD_SIZE <= record_offset(j)) by (nonlinear_arith)
            requires
                i < j,
        ;
    } else {
        assert(record_offset(j) + RECORD_SIZE <= record_offset(i)) by (nonlinear_arith)
            requires
                j < i,
        ;
    }
}

} // verus!
