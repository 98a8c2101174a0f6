use vstd::prelude::*;

verus! {

/// Byte `b` (0 to 3, least significant first) of `w`.
pub open spec fn le_byte(w: u32, b: int) -> u8 {
    if b == 0 {
        (w % 0x100) as u8
    } else if b == 1 {
        ((w / 0x100) % 0x100) as u8
    } else if b == 2 {
        ((w / 0x1_0000) % 0x100) as u8
    } else {
        (w / 0x100_0000) as u8
    }
}

/// Byte `b` (0 or 1, least significant first) of `h`.
pub open spec fn le_byte16(h: u16, b: int) -> u8 {
    if b == 0 {
        (h % 0x100) as u8
    } else {
        (h / 0x100) as u8
    }
}

/// `bytes` holds the words of `ws` one after another, each least significant
/// byte first.
pub open spec fn is_le_words(ws: Seq<u32>, bytes: Seq<u8>) -> bool {
    &&& bytes.len() == 4 * ws.len()
    &&& forall|k: int, b: int|
        0 <= k < ws.len() && 0 <= b < 4 ==> #[trigger] bytes[4 * k + b] == le_byte(ws[k], b)
}

/// `bytes` holds the halfwords of `hs` one after another, each least
/// significant byte first.
pub open spec fn is_le_halves(hs: Seq<u16>, bytes: Seq<u8>) -> bool {
    &&& bytes.len() == 2 * hs.len()
    &&& forall|k: int, b: int|
        0 <= k < hs.len() && 0 <= b < 2 ==> #[trigger] bytes[2 * k + b] == le_byte16(hs[k], b)
}

/// Encodes words least significant byte first, the layout a GPU reads.
pub fn words_to_le_bytes(ws: &Vec<u32>) -> (r: Vec<u8>)
    requires
        4 * ws@.len() <= usize::MAX,
    ensures
        is_le_words(ws@, r@),
{
    let mut r: Vec<u8> = Vec::new();
    let mut i: usize = 0;
    while i < ws.len()
        invariant
            i <= ws@.len(),
            r@.len() == 4 * i,
            forall|k: int, b: int|
                0 <= k < i && 0 <= b < 4 ==> #[trigger] r@[4 * k + b] == le_byte(ws@[k], b),
        decreases ws@.len() - i,
    {
        let w = ws[i];
        r.push((w % 0x100) as u8);
        r.push(((w / 0x100) % 0x100) as u8);
        r.push(((w / 0x1_0000) % 0x100) as u8);
        r.push((w / 0x100_0000) as u8);
        i = i + 1;
    }
    r
}

/// Encodes halfwords least significant byte first, the layout a GPU reads.
pub fn halves_to_le_bytes(hs: &Vec<u16>) -> (r: Vec<u8>)
    requires
        2 * hs@.len() <= usize::MAX,
    ensures
        is_le_halves(hs@, r@),
{
    let mut r: Vec<u8> = Vec::new();
    let mut i: usize = 0;
    while i < hs.len()
        invariant
            i <= hs@.len(),
            r@.len() == 2 * i,
            forall|k: int, b: int|
                0 <= k < i && 0 <= b < 2 ==> #[trigger] r@[2 * k + b] == le_byte16(hs@[k], b),
        decreases hs@.len() - i,
    {
        let h = hs[i];
        r.push((h % 0x100) as u8);
        r.push((h / 0x100) as u8);
        i = i + 1;
    }
    r
}

/// Largest vertex count whose indices all fit in 16 bits.
pub const NARROW_VERTEX_LIMIT: usize = 0x1_0000;

/// A triangle list in the narrowest index width that holds every index.
#[derive(Debug)]
pub enum IndexBuffer {
    Narrow(Vec<u16>),
    Wide(Vec<u32>),
}

/// Why a mesh's indices cannot be used.
#[derive(Clone, Copy, Debug, PartialEq, Eq, Structural)]
pub enum MeshError {
    /// The index at `position` names no vertex.
    IndexOutOfRange { position: usize, index: u32 },
}

/// Every index names one of `vertex_count` vertices.
pub open spec fn all_in_range(indices: Seq<u32>, vertex_count: nat) -> bool {
    forall|k: int| 0 <= k < indices.len() ==> #[trigger] indices[k] < vertex_count
}

impl IndexBuffer {
    /// The indices held, as integers.
    pub open spec fn values(self) -> Seq<int> {
        match self {
            IndexBuffer::Narrow(v) => v@.map_values(|h: u16| h as int),
            IndexBuffer::Wide(v) => v@.map_values(|w: u32| w as int),
        }
    }

    /// Number of indices held.
    pub fn len(&self) -> (r: usize)
        ensures
            r == self.values().len(),
    {
        match self {
            IndexBuffer::Narrow(v) => v.len(),
            IndexBuffer::Wide(v) => v.len(),
        }
    }

    /// Indices are 32 bits wide, else 16.
    pub fn is_wide(&self) -> (r: bool)
        ensures
            r == (*self is Wide),
    {
        match self {
            IndexBuffer::Narrow(_) => false,
            IndexBuffer::Wide(_) => true,
        }
    }

    /// The indices as bytes, least significant first, in their width.
    pub fn to_bytes(&self) -> (r: Vec<u8>)
        requires
            4 * self.values().len() <= usize::MAX,
        ensures
            match *self {
                IndexBuffer::Narrow(v) => is_le_halves(v@, r@),
                IndexBuffer::Wide(v) => is_le_words(v@, r@),
            },
    {
        match self {
            IndexBuffer::Narrow(v) => halves_to_le_bytes(v),
            IndexBuffer::Wide(v) => words_to_le_bytes(v),
        }
    }
}

/// Checks a triangle list against its vertex count and stores it 16 bits wide
/// when every vertex index fits (at most `NARROW_VERTEX_LIMIT` vertices), else
/// 32 bits wide. Fails on the first index that names no vertex.
pub fn pack_indices(indices: &Vec<u32>, vertex_count: usize) -> (r: Result<IndexBuffer, MeshError>)
    ensures
        r is Ok <==> all_in_range(indices@, vertex_count as nat),
        r matches Ok(buf) ==> buf.values() == indices@.map_values(|w: u32| w as int) && (buf is Wide
            <==> vertex_count > NARROW_VERTEX_LIMIT),
        r matches Err(MeshError::IndexOutOfRange { position, index }) ==> position < indices@.len()
            && indices@[position as int] == index && index >= vertex_count && all_in_range(
            indices@.subrange(0, position as int),
            vertex_count as nat,
        ),
{
    let mut i: usize = 0;
    while i < indices.len()
        invariant
            i <= indices@.len(),
            all_in_range(indices@.subrange(0, i as int), vertex_count as nat),
        decreases indices@.len() - i,
    {
        if indices[i] as usize >= vertex_count {
            return Err(MeshError::IndexOutOfRange { position: i, index: indices[i] });
        }
        proof {
            assert(indices@.subrange(0, i + 1) =~= indices@.subrange(0, i as int).push(indices@[i as int]));
        }
        i = i + 1;
    }
    proof {
        assert(indices@.subrange(0, indices@.len() as int) =~= indices@);
    }
    if vertex_count > NARROW_VERTEX_LIMIT {
        return Ok(IndexBuffer::Wide(indices.clone()));
    }
    let mut narrow: Vec<u16> = Vec::new();
    let mut k: usize = 0;
    while k < indices.len()
        invariant
            k <= indices@.len(),
            vertex_count <= NARROW_VERTEX_LIMIT,
            all_in_range(indices@, vertex_count as nat),
            narrow@.len() == k,
            forall|j: int| 0 <= j < k ==> #[trigger] narrow@[j] as int == indices@[j] as int,
        decreases indices@.len() - k,
    {
        narrow.push(indices[k] as u16);
        k = k + 1;
    }
    let buf = IndexBuffer::Narrow(narrow);
    proof {
        assert(buf.values() =~= indices@.map_values(|w: u32| w as int));
    }
    Ok(buf)
}

/// Size in bytes of an encoded `UniformBlock`.
pub const UNIFORM_BLOCK_BYTES: usize = 160;

/// The per-object uniform state as the shading programs read it, every field a
/// single-precision number given by its bit pattern.
#[derive(Clone, Copy, Debug, PartialEq, Eq)]
pub struct UniformBlock {
    /// Camera view-projection matrix, column by column.
    pub view_proj: [u32; 16],
    /// Model (object to world) matrix, column by column.
    pub model: [u32; 16],
    pub color: [u32; 4],
    /// Elapsed time in seconds.
    pub time: u32,
    pub orbital_radius: u32,
    pub orbital_speed: u32,
}

impl UniformBlock {
    /// The words of the block in layout order: `view_proj`, `model`, `color`,
    /// `time`, `orbital_radius`, `orbital_speed`, then one zero word of padding
    /// that rounds the block up to a multiple of 16 bytes.
    pub open spec fn words(self) -> Seq<u32> {
        self.view_proj@ + self.model@ + self.color@ + seq![
            self.time,
            self.orbital_radius,
            self.orbital_speed,
            0u32,
        ]
    }

    /// The block as bytes for the GPU: `words` in order, each least
    /// significant byte first; `UNIFORM_BLOCK_BYTES` bytes in all.
    pub fn to_bytes(&self) -> (r: Vec<u8>)
        ensures
            is_le_words(self.words(), r@),
            r@.len() == UNIFORM_BLOCK_BYTES,
    {
        let mut ws: Vec<u32> = Vec::new();
        let mut i: usize = 0;
        while i < 16
            invariant
                i <= 16,
                ws@ == self.view_proj@.subrange(0, i as int),
            decreases 16 - i,
        {
            ws.push(self.view_proj[i]);
            i = i + 1;
        }
        let mut i: usize = 0;
        while i < 16
            invariant
                i <= 16,
                ws@ == self.view_proj@ + self.model@.subrange(0, i as int),
            decreases 16 - i,
        {
            ws.push(self.model[i]);
            i = i + 1;
        }
        let mut i: usize = 0;
        while i < 4
            invariant
                i <= 4,
                ws@ == self.view_proj@ + self.model@ + self.color@.subrange(0, i as int),
            decreases 4 - i,
        {
            ws.push(self.color[i]);
            i = i + 1;
        }
        ws.push(self.time);
        ws.push(self.orbital_radius);
        ws.push(self.orbital_speed);
        ws.push(0);
        proof {
            assert(ws@ =~= self.words());
        }
        words_to_le_bytes(&ws)
    }
}

} // verus!
