use vstd::prelude::*;

verus! {

/// Byte offset of the 4x4 camera matrix (16 words, already transposed).
pub const CAMERA_MATRIX_OFFSET: usize = 0;

/// Byte offset of the two aspect-scale components.
pub const ASPECT_SCALE_OFFSET: usize = 64;

/// Byte offset of the scaled time.
pub const TIME_OFFSET: usize = 72;

/// Byte offset of the iteration count.
pub const NUM_ITERATIONS_OFFSET: usize = 76;

/// Byte offset of the scene index.
pub const SCENE_INDEX_OFFSET: usize = 80;

/// Bytes holding data; the rest of the block is zero padding.
pub const UNIFORM_DATA_SIZE: usize = 84;

/// Size of the whole block, a multiple of 16 bytes.
pub const UNIFORM_BLOCK_SIZE: usize = 96;

/// The uniform block's fields as 32-bit words; floating-point fields hold their
/// IEEE-754 bit patterns.
#[derive(Clone, Copy, Debug)]
pub struct UniformBlock {
    pub camera_matrix: [u32; 16],
    pub aspect_scale: [u32; 2],
    pub time: u32,
    pub num_iterations: u32,
    pub scene_index: u32,
}

/// A word as four bytes, least significant first.
pub open spec fn le_bytes(w: u32) -> Seq<u8> {
    seq![
        (w % 256) as u8,
        ((w / 256) % 256) as u8,
        ((w / 65536) % 256) as u8,
        (w / 16777216) as u8,
    ]
}

/// Words laid out one after the other, each as four bytes, least significant first.
pub open spec fn bytes_of_words(ws: Seq<u32>) -> Seq<u8>
    decreases ws.len(),
{
    if ws.len() == 0 {
        Seq::empty()
    } else {
        bytes_of_words(ws.drop_last()) + le_bytes(ws.last())
    }
}

/// The block's words in layout order.
pub open spec fn words_of(b: UniformBlock) -> Seq<u32> {
    b.camera_matrix@ + b.aspect_scale@ + seq![b.time, b.num_iterations, b.scene_index]
}

/// The block as the shader reads it: its words, then zero padding.
pub open spec fn encoded(b: UniformBlock) -> Seq<u8> {
    bytes_of_words(words_of(b)) + Seq::new(
        (UNIFORM_BLOCK_SIZE - UNIFORM_DATA_SIZE) as nat,
        |i: int| 0u8,
    )
}

proof fn lemma_bytes_of_words_len(ws: Seq<u32>)
    ensures
        bytes_of_words(ws).len() == 4 * ws.len(),
    decreases ws.len(),
{
    if ws.len() > 0 {
        lemma_bytes_of_words_len(ws.drop_last());
    }
}

/// Word `i` of a sequence occupies bytes `4 i` to `4 i + 4` of its layout.
pub proof fn lemma_word_at(ws: Seq<u32>, i: int)
    requires
        0 <= i < ws.len(),
    ensures
        bytes_of_words(ws).subrange(4 * i, 4 * i + 4) == le_bytes(ws[i]),
    decreases ws.len(),
{
    let front = ws.drop_last();
    lemma_bytes_of_words_len(front);
    if i == ws.len() - 1 {
        assert(bytes_of_words(ws).subrange(4 * i, 4 * i + 4) =~= le_bytes(ws[i]));
    } else {
        lemma_word_at(front, i);
        assert(bytes_of_words(ws).subrange(4 * i, 4 * i + 4) =~= bytes_of_words(front).subrange(
            4 * i,
            4 * i + 4,
        ));
    }
}

fn push_word(out: &mut Vec<u8>, w: u32)
    ensures
        final(out)@ == old(out)@ + le_bytes(w),
{
    out.push((w % 256) as u8);
    out.push(((w / 256) % 256) as u8);
    out.push(((w / 65536) % 256) as u8);
    out.push((w / 16777216) as u8);
    assert(final(out)@ =~= old(out)@ + le_bytes(w));
}

impl UniformBlock {
    /// All fields zero.
    pub fn zeroed() -> (r: Self)
        ensures
            forall|i: int| 0 <= i < 16 ==> r.camera_matrix[i] == 0,
            r.aspect_scale[0] == 0 && r.aspect_scale[1] == 0,
            r.time == 0 && r.num_iterations == 0 && r.scene_index == 0,
    {
        UniformBlock {
            camera_matrix: [0u32; 16],
            aspect_scale: [0u32; 2],
            time: 0,
            num_iterations: 0,
            scene_index: 0,
        }
    }

    /// The block in its wire layout: every word little-endian at its offset, then
    /// zero bytes up to a multiple of 16.
    pub fn to_bytes(&self) -> (r: Vec<u8>)
        ensures
            r@ == encoded(*self),
            r@.len() == UNIFORM_BLOCK_SIZE,
    {
        let mut words: Vec<u32> = Vec::new();
        let mut i: usize = 0;
        while i < 16
            invariant
                0 <= i <= 16,
                words@ == self.camera_matrix@.subrange(0, i as int),
            decreases 16 - i,
        {
            words.push(self.camera_matrix[i]);
            i = i + 1;
            assert(words@ =~= self.camera_matrix@.subrange(0, i as int));
        }
        words.push(self.aspect_scale[0]);
        words.push(self.aspect_scale[1]);
        words.push(self.time);
        words.push(self.num_iterations);
        words.push(self.scene_index);
        assert(self.camera_matrix@.subrange(0, 16) =~= self.camera_matrix@);
        assert(words@ =~= words_of(*self));
        let mut out: Vec<u8> = Vec::new();
        let mut j: usize = 0;
        while j < words.len()
            invariant
                0 <= j <= words@.len(),
                words@ == words_of(*self),
                out@ == bytes_of_words(words@.subrange(0, j as int)),
            decreases words@.len() - j,
        {
            push_word(&mut out, words[j]);
            proof {
                let next = words@.subrange(0, j + 1);
                assert(next.drop_last() =~= words@.subrange(0, j as int));
            }
            j = j + 1;
        }
        assert(words@.subrange(0, words@.len() as int) =~= words@);
        let mut k: usize = UNIFORM_DATA_SIZE;
        let ghost data = out@;
        proof {
            lemma_bytes_of_words_len(words@);
        }
        while k < UNIFORM_BLOCK_SIZE
            invariant
                UNIFORM_DATA_SIZE <= k <= UNIFORM_BLOCK_SIZE,
                data.len() == UNIFORM_DATA_SIZE,
                out@ == data + Seq::new((k - UNIFORM_DATA_SIZE) as nat, |i: int| 0u8),
            decreases UNIFORM_BLOCK_SIZE - k,
        {
            out.push(0u8);
            k = k + 1;
            assert(out@ =~= data + Seq::new((k - UNIFORM_DATA_SIZE) as nat, |i: int| 0u8));
        }
        out
    }
}

/// Each field stands at its fixed offset, and the padding is zero.
pub proof fn lemma_uniform_layout(b: UniformBlock)
    ensures
        encoded(b).len() == UNIFORM_BLOCK_SIZE,
        forall|i: int|
            0 <= i < 16 ==> #[trigger] encoded(b).subrange(
                CAMERA_MATRIX_OFFSET + 4 * i,
                CAMERA_MATRIX_OFFSET + 4 * i + 4,
            ) == le_bytes(b.camera_matrix[i]),
        encoded(b).subrange(ASPECT_SCALE_OFFSET as int, ASPECT_SCALE_OFFSET + 4) == le_bytes(
            b.aspect_scale[0],
        ),
        encoded(b).subrange(ASPECT_SCALE_OFFSET + 4, ASPECT_SCALE_OFFSET + 8) == le_bytes(
            b.aspect_scale[1],
        ),
        encoded(b).subrange(TIME_OFFSET as int, TIME_OFFSET + 4) == le_bytes(b.time),
        encoded(b).subrange(NUM_ITERATIONS_OFFSET as int, NUM_ITERATIONS_OFFSET + 4) == le_bytes(
            b.num_iterations,
        ),
        encoded(b).subrange(SCENE_INDEX_OFFSET as int, SCENE_INDEX_OFFSET + 4) == le_bytes(
            b.scene_index,
        ),
        forall|j: int| UNIFORM_DATA_SIZE <= j < UNIFORM_BLOCK_SIZE ==> #[trigger] encoded(b)[j] == 0,
{
    let ws = words_of(b);
    let data = bytes_of_words(ws);
    lemma_bytes_of_words_len(ws);
    assert(ws.len() == 21);
    assert forall|i: int| 0 <= i < 21 implies #[trigger] encoded(b).subrange(4 * i, 4 * i + 4)
        == le_bytes(ws[i]) by {
        lemma_word_at(ws, i);
        assert(encoded(b).subrange(4 * i, 4 * i + 4) =~= data.subrange(4 * i, 4 * i + 4));
    }
    assert forall|i: int| 0 <= i < 16 implies #[trigger] encoded(b).subrange(
        CAMERA_MATRIX_OFFSET + 4 * i,
        CAMERA_MATRIX_OFFSET + 4 * i + 4,
    ) == le_bytes(b.camera_matrix[i]) by {
        assert(encoded(b).subrange(4 * i, 4 * i + 4) == le_bytes(ws[i]));
        assert(ws[i] == b.camera_matrix[i]);
    }
    assert(encoded(b).subrange(4 * 16int, 4 * 16int + 4) == le_bytes(ws[16]));
    assert(encoded(b).subrange(4 * 17int, 4 * 17int + 4) == le_bytes(ws[17]));
    assert(encoded(b).subrange(4 * 18int, 4 * 18int + 4) == le_bytes(ws[18]));
    assert(encoded(b).subrange(4 * 19int, 4 * 19int + 4) == le_bytes(ws[19]));
    assert(encoded(b).subrange(4 * 20int, 4 * 20int + 4) == le_bytes(ws[20]));
}

} // verus!
