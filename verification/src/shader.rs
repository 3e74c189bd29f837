//! Shader inputs: SPIR-V words from raw bytes, and the GLSL dialect and
//! graphics API that each platform uses.

use vstd::prelude::*;
use crate::system::GraphicsAPI;

verus! {

/// The first word of every SPIR-V module.
pub const SPIRV_MAGIC_NUMBER: u32 = 0x07230203;

/// Why bytes are not a SPIR-V module.
#[derive(Debug, Clone, Copy, Eq, PartialEq, Structural)]
pub enum SpirvError {
    /// "input length not divisible by 4"
    LengthNotMultipleOfFour,
    /// "input missing SPIR-V magic number"
    MissingMagicNumber,
}

impl SpirvError {
    /// The error's message.
    pub fn message(&self) -> (r: &'static str)
        ensures
            *self == SpirvError::LengthNotMultipleOfFour ==> r@ == "input length not divisible by 4"@,
            *self == SpirvError::MissingMagicNumber ==> r@ == "input missing SPIR-V magic number"@,
    {
        match self {
            SpirvError::LengthNotMultipleOfFour => "input length not divisible by 4",
            SpirvError::MissingMagicNumber => "input missing SPIR-V magic number",
        }
    }
}

/// Word `i` of `bytes` read little-endian.
pub open spec fn le_word(bytes: Seq<u8>, i: int) -> int {
    bytes[4 * i] + bytes[4 * i + 1] * 0x100 + bytes[4 * i + 2] * 0x1_0000 + bytes[4 * i + 3]
        * 0x100_0000
}

/// Word `i` of `bytes` read big-endian.
pub open spec fn be_word(bytes: Seq<u8>, i: int) -> int {
    bytes[4 * i] * 0x100_0000 + bytes[4 * i + 1] * 0x1_0000 + bytes[4 * i + 2] * 0x100 + bytes[4
        * i + 3]
}

/// The words of a SPIR-V module: whole 4-byte words, in the byte order that
/// makes the first word the magic number.
pub open spec fn spirv_words(bytes: Seq<u8>) -> Result<Seq<u32>, SpirvError> {
    let n = bytes.len() / 4;
    if bytes.len() % 4 != 0 {
        Err(SpirvError::LengthNotMultipleOfFour)
    } else if n == 0 {
        Err(SpirvError::MissingMagicNumber)
    } else if le_word(bytes, 0) == SPIRV_MAGIC_NUMBER {
        Ok(Seq::new(n, |i: int| le_word(bytes, i) as u32))
    } else if be_word(bytes, 0) == SPIRV_MAGIC_NUMBER {
        Ok(Seq::new(n, |i: int| be_word(bytes, i) as u32))
    } else {
        Err(SpirvError::MissingMagicNumber)
    }
}

fn read_word(bytes: &[u8], i: usize, little_endian: bool) -> (r: u32)
    requires
        4 * i + 3 < bytes@.len(),
    ensures
        little_endian ==> r == le_word(bytes@, i as int),
        !little_endian ==> r == be_word(bytes@, i as int),
{
    // Reading the length tells the prover that the indices below fit in a usize.
    let _len = bytes.len();
    let b0 = bytes[4 * i] as u32;
    let b1 = bytes[4 * i + 1] as u32;
    let b2 = bytes[4 * i + 2] as u32;
    let b3 = bytes[4 * i + 3] as u32;
    if little_endian {
        b0 + b1 * 0x100 + b2 * 0x1_0000 + b3 * 0x100_0000
    } else {
        b0 * 0x100_0000 + b1 * 0x1_0000 + b2 * 0x100 + b3
    }
}

/// Reads a SPIR-V module from its bytes.  The module may be stored in either
/// byte order; the words come out in the order that starts with the magic
/// number.
pub fn read_spirv(bytes: &[u8]) -> (r: Result<Vec<u32>, SpirvError>)
    ensures
        match r {
            Ok(words) => spirv_words(bytes@) == Ok::<Seq<u32>, SpirvError>(words@),
            Err(e) => spirv_words(bytes@) == Err::<Seq<u32>, SpirvError>(e),
        },
{
    let size = bytes.len();
    if size % 4 != 0 {
        return Err(SpirvError::LengthNotMultipleOfFour);
    }
    let words = size / 4;
    if words == 0 {
        return Err(SpirvError::MissingMagicNumber);
    }
    let little_endian = if read_word(bytes, 0, true) == SPIRV_MAGIC_NUMBER {
        true
    } else if read_word(bytes, 0, false) == SPIRV_MAGIC_NUMBER {
        false
    } else {
        return Err(SpirvError::MissingMagicNumber);
    };
    let mut result: Vec<u32> = Vec::with_capacity(words);
    let mut i: usize = 0;
    while i < words
        invariant
            words == bytes@.len() / 4,
            bytes@.len() % 4 == 0,
            i <= words,
            result@.len() == i,
            forall|j: int|
                0 <= j < i ==> #[trigger] result@[j] == (if little_endian {
                    le_word(bytes@, j)
                } else {
                    be_word(bytes@, j)
                }),
        decreases words - i,
    {
        let w = read_word(bytes, i, little_endian);
        result.push(w);
        i = i + 1;
    }
    proof {
        let n = (bytes@.len() / 4) as nat;
        if little_endian {
            assert(result@ =~= Seq::new(n, |k: int| le_word(bytes@, k) as u32));
        } else {
            assert(result@ =~= Seq::new(n, |k: int| be_word(bytes@, k) as u32));
        }
    }
    Ok(result)
}

/// `bytes` with the order of the bytes inside each 4-byte word reversed (a
/// trailing partial word is dropped).
pub open spec fn byteswapped(bytes: Seq<u8>) -> Seq<u8> {
    Seq::new((bytes.len() / 4 * 4) as nat, |k: int| bytes[4 * (k / 4) + 3 - k % 4])
}

proof fn lemma_word_index(i: int, j: int)
    requires
        0 <= i,
        0 <= j < 4,
    ensures
        (4 * i + j) / 4 == i,
        (4 * i + j) % 4 == j,
{
    assert((4 * i + j) / 4 == i && (4 * i + j) % 4 == j) by (nonlinear_arith)
        requires
            0 <= i,
            0 <= j < 4,
    ;
}

proof fn lemma_swapped_words(bytes: Seq<u8>, i: int)
    requires
        bytes.len() % 4 == 0,
        0 <= i < bytes.len() / 4,
    ensures
        le_word(byteswapped(bytes), i) == be_word(bytes, i),
        be_word(byteswapped(bytes), i) == le_word(bytes, i),
{
    let sb = byteswapped(bytes);
    assert(4 * i + 3 < bytes.len()) by (nonlinear_arith)
        requires
            0 <= i < bytes.len() / 4,
            bytes.len() % 4 == 0,
    ;
    assert(sb.len() == bytes.len());
    lemma_word_index(i, 0);
    lemma_word_index(i, 1);
    lemma_word_index(i, 2);
    lemma_word_index(i, 3);
    assert(sb[4 * i] == bytes[4 * i + 3]);
    assert(sb[4 * i + 1] == bytes[4 * i + 2]);
    assert(sb[4 * i + 2] == bytes[4 * i + 1]);
    assert(sb[4 * i + 3] == bytes[4 * i]);
}

proof fn lemma_magic_in_one_order_only(b0: u8, b1: u8, b2: u8, b3: u8)
    ensures
        !(b0 + b1 * 0x100 + b2 * 0x1_0000 + b3 * 0x100_0000 == 0x07230203 && b0 * 0x100_0000 + b1
            * 0x1_0000 + b2 * 0x100 + b3 == 0x07230203),
{
    assert(!(b0 + b1 * 0x100 + b2 * 0x1_0000 + b3 * 0x100_0000 == 0x07230203 && b0 * 0x100_0000
        + b1 * 0x1_0000 + b2 * 0x100 + b3 == 0x07230203)) by (bit_vector);
}

/// A SPIR-V module reads to the same words, or fails the same way, whichever
/// byte order it is stored in.
pub proof fn law_spirv_byte_order_independent(bytes: Seq<u8>)
    requires
        bytes.len() % 4 == 0,
    ensures
        spirv_words(byteswapped(bytes)) == spirv_words(bytes),
{
    let sb = byteswapped(bytes);
    let n = bytes.len() / 4;
    assert(sb.len() == bytes.len());
    if n > 0 {
        lemma_swapped_words(bytes, 0);
        lemma_magic_in_one_order_only(bytes[0], bytes[1], bytes[2], bytes[3]);
        assert forall|i: int| 0 <= i < n implies le_word(sb, i) == be_word(bytes, i) && be_word(
            sb,
            i,
        ) == le_word(bytes, i) by {
            lemma_swapped_words(bytes, i);
        }
        if le_word(bytes, 0) == SPIRV_MAGIC_NUMBER {
            assert(Seq::new(n as nat, |i: int| be_word(sb, i) as u32) =~= Seq::new(
                n as nat,
                |i: int| le_word(bytes, i) as u32,
            ));
        } else if be_word(bytes, 0) == SPIRV_MAGIC_NUMBER {
            assert(Seq::new(n as nat, |i: int| le_word(sb, i) as u32) =~= Seq::new(
                n as nat,
                |i: int| be_word(bytes, i) as u32,
            ));
        }
    }
}

/// What reading SPIR-V bytes gives: bytes whose length is not a multiple of
/// four are refused for it; otherwise the module is read exactly when its
/// first four bytes spell the magic number in one byte order, and then every
/// 4-byte group becomes one word in that same order, the first word being
/// the magic number.
pub proof fn law_spirv_words_from_bytes(bytes: Seq<u8>)
    ensures
        bytes.len() % 4 != 0 ==> spirv_words(bytes) == Err::<Seq<u32>, SpirvError>(
            SpirvError::LengthNotMultipleOfFour,
        ),
        bytes.len() % 4 == 0 ==> (spirv_words(bytes) is Ok <==> (bytes.len() >= 4 && (bytes[0]
            + bytes[1] * 0x100 + bytes[2] * 0x1_0000 + bytes[3] * 0x100_0000 == SPIRV_MAGIC_NUMBER
            || bytes[0] * 0x100_0000 + bytes[1] * 0x1_0000 + bytes[2] * 0x100 + bytes[3]
            == SPIRV_MAGIC_NUMBER))),
        spirv_words(bytes) matches Ok(words) ==> {
            &&& words.len() * 4 == bytes.len()
            &&& words[0] == SPIRV_MAGIC_NUMBER
            &&& (forall|i: int|
                0 <= i < words.len() ==> #[trigger] words[i] == bytes[4 * i] + bytes[4 * i + 1] * 0x100
                    + bytes[4 * i + 2] * 0x1_0000 + bytes[4 * i + 3] * 0x100_0000) || (forall|i: int|
                0 <= i < words.len() ==> #[trigger] words[i] == bytes[4 * i] * 0x100_0000 + bytes[4
                    * i + 1] * 0x1_0000 + bytes[4 * i + 2] * 0x100 + bytes[4 * i + 3])
        },
{
    if bytes.len() % 4 == 0 && bytes.len() >= 4 {
        let n = bytes.len() / 4;
        assert(n * 4 == bytes.len());
        lemma_le_word_fits(bytes);
    }
}

proof fn lemma_le_word_fits(bytes: Seq<u8>)
    requires
        bytes.len() % 4 == 0,
    ensures
        forall|i: int|
            0 <= i < bytes.len() / 4 ==> 0 <= #[trigger] le_word(bytes, i) <= u32::MAX && 0 <= be_word(
                bytes,
                i,
            ) <= u32::MAX,
{
    assert forall|i: int| 0 <= i < bytes.len() / 4 implies 0 <= #[trigger] le_word(bytes, i) <= u32::MAX
        && 0 <= be_word(bytes, i) <= u32::MAX by {
        assert(4 * i + 3 < bytes.len()) by (nonlinear_arith)
            requires
                0 <= i < bytes.len() / 4,
                bytes.len() % 4 == 0,
        ;
        let b0 = bytes[4 * i];
        let b1 = bytes[4 * i + 1];
        let b2 = bytes[4 * i + 2];
        let b3 = bytes[4 * i + 3];
        assert(0 <= b0 + b1 * 0x100 + b2 * 0x1_0000 + b3 * 0x100_0000 <= u32::MAX) by (nonlinear_arith)
            requires
                0 <= b0 < 256,
                0 <= b1 < 256,
                0 <= b2 < 256,
                0 <= b3 < 256,
        ;
        assert(0 <= b0 * 0x100_0000 + b1 * 0x1_0000 + b2 * 0x100 + b3 <= u32::MAX) by (nonlinear_arith)
            requires
                0 <= b0 < 256,
                0 <= b1 < 256,
                0 <= b2 < 256,
                0 <= b3 < 256,
        ;
    }
}

/// GLSL dialects the shaders are compiled to.
#[derive(Debug, Clone, Copy, Eq, PartialEq, Structural)]
pub enum GlslVersion {
    /// GLSL ES 1.00
    V1_00Es,
    /// GLSL ES 3.00
    V3_00Es,
    /// GLSL 3.30
    V3_30,
}

/// The GLSL dialect of a graphics API, if it has one.
pub open spec fn glsl_version_of(api: GraphicsAPI) -> Option<GlslVersion> {
    match api {
        GraphicsAPI::WebGl => Some(GlslVersion::V1_00Es),
        GraphicsAPI::WebGl2 => Some(GlslVersion::V3_00Es),
        GraphicsAPI::OpenGl3_3 => Some(GlslVersion::V3_30),
        GraphicsAPI::OpenGlEs2_0 => Some(GlslVersion::V1_00Es),
        _ => None,
    }
}

/// The GLSL dialect shaders are compiled to for `api`.
pub fn to_glsl_version(api: &GraphicsAPI) -> (r: Option<GlslVersion>)
    ensures
        r == glsl_version_of(*api),
{
    match api {
        GraphicsAPI::WebGl => Some(GlslVersion::V1_00Es),
        GraphicsAPI::WebGl2 => Some(GlslVersion::V3_00Es),
        GraphicsAPI::OpenGl3_3 => Some(GlslVersion::V3_30),
        GraphicsAPI::OpenGlEs2_0 => Some(GlslVersion::V1_00Es),
        _ => None,
    }
}

/// The graphics API of a native window: OpenGL ES 2.0 on mobile systems
/// (Android, iOS), OpenGL 3.3 elsewhere.
pub fn default_api(mobile: bool) -> (r: GraphicsAPI)
    ensures
        mobile ==> r is OpenGlEs2_0,
        !mobile ==> r is OpenGl3_3,
{
    if mobile {
        return GraphicsAPI::OpenGlEs2_0;
    }
    GraphicsAPI::OpenGl3_3
}

} // verus!
