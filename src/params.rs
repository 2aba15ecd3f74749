use vstd::prelude::*;
use vstd::string::*;

use crate::error::CodecError;

verus! {

/// The compression algorithms a frame may be tagged with.
#[derive(Clone, Copy, Debug, PartialEq, Eq, Structural)]
pub enum Compressor {
    BloscLz,
    Lz4,
    Zlib,
    Zstd,
}

/// The external identifier of each algorithm.
pub open spec fn compressor_name(c: Compressor) -> Seq<char> {
    match c {
        Compressor::BloscLz => seq!['b', 'l', 'o', 's', 'c', 'l', 'z'],
        Compressor::Lz4 => seq!['l', 'z', '4'],
        Compressor::Zlib => seq!['z', 'l', 'i', 'b'],
        Compressor::Zstd => seq!['z', 's', 't', 'd'],
    }
}

/// The algorithm whose identifier is `s`, if there is one.
pub open spec fn compressor_named(s: Seq<char>) -> Option<Compressor> {
    if s == compressor_name(Compressor::BloscLz) {
        Some(Compressor::BloscLz)
    } else if s == compressor_name(Compressor::Lz4) {
        Some(Compressor::Lz4)
    } else if s == compressor_name(Compressor::Zlib) {
        Some(Compressor::Zlib)
    } else if s == compressor_name(Compressor::Zstd) {
        Some(Compressor::Zstd)
    } else {
        None
    }
}

/// Character-wise equality of two strings.
fn str_eq(a: &str, b: &str) -> (r: bool)
    ensures
        r == (a@ == b@),
{
    let n = a.unicode_len();
    if n != b.unicode_len() {
        return false;
    }
    let mut i: usize = 0;
    while i < n
        invariant
            n == a@.len(),
            n == b@.len(),
            i <= n,
            forall|j: int| 0 <= j < i ==> a@[j] == b@[j],
        decreases n - i,
    {
        if a.get_char(i) != b.get_char(i) {
            return false;
        }
        i += 1;
    }
    assert(a@ =~= b@);
    true
}

impl Compressor {
    /// Looks an algorithm up by its external identifier.
    pub fn from_name(name: &str) -> (r: Option<Compressor>)
        ensures
            r == compressor_named(name@),
    {
        proof {
            reveal_strlit("blosclz");
            reveal_strlit("lz4");
            reveal_strlit("zlib");
            reveal_strlit("zstd");
            assert("blosclz"@ =~= compressor_name(Compressor::BloscLz));
            assert("lz4"@ =~= compressor_name(Compressor::Lz4));
            assert("zlib"@ =~= compressor_name(Compressor::Zlib));
            assert("zstd"@ =~= compressor_name(Compressor::Zstd));
        }
        if str_eq(name, "blosclz") {
            Some(Compressor::BloscLz)
        } else if str_eq(name, "lz4") {
            Some(Compressor::Lz4)
        } else if str_eq(name, "zlib") {
            Some(Compressor::Zlib)
        } else if str_eq(name, "zstd") {
            Some(Compressor::Zstd)
        } else {
            None
        }
    }

    /// The external identifier of this algorithm.
    pub fn name(&self) -> (r: &'static str)
        ensures
            r@ == compressor_name(*self),
    {
        proof {
            reveal_strlit("blosclz");
            reveal_strlit("lz4");
            reveal_strlit("zlib");
            reveal_strlit("zstd");
            assert("blosclz"@ =~= compressor_name(Compressor::BloscLz));
            assert("lz4"@ =~= compressor_name(Compressor::Lz4));
            assert("zlib"@ =~= compressor_name(Compressor::Zlib));
            assert("zstd"@ =~= compressor_name(Compressor::Zstd));
        }
        match self {
            Compressor::BloscLz => "blosclz",
            Compressor::Lz4 => "lz4",
            Compressor::Zlib => "zlib",
            Compressor::Zstd => "zstd",
        }
    }
}

/// Block size hint applied when a configuration omits it: the engine chooses.
pub fn default_blosc_blocksize() -> (r: usize)
    ensures
        r == 0,
{
    0
}

/// Compression level applied when a configuration omits it.
pub fn default_blosc_clevel() -> (r: u8)
    ensures
        r == 5,
{
    5
}

/// Shuffle mode applied when a configuration omits it: byte shuffle.
pub fn default_blosc_shufflemode() -> (r: u8)
    ensures
        r == 1,
{
    1
}

/// The mathematical content of a parameter set.
pub struct BloscParams {
    pub blocksize: nat,
    pub clevel: nat,
    pub cname: Compressor,
    pub shuffle: nat,
}

/// How a block was or will be compressed. Every value names a recognised
/// algorithm, and a value never changes once built.
#[derive(Clone, Copy, Debug, PartialEq, Eq, Structural)]
pub struct BloscCompression {
    blocksize: usize,
    clevel: u8,
    cname: Compressor,
    shuffle: u8,
}

impl View for BloscCompression {
    type V = BloscParams;

    closed spec fn view(&self) -> BloscParams {
        BloscParams {
            blocksize: self.blocksize as nat,
            clevel: self.clevel as nat,
            cname: self.cname,
            shuffle: self.shuffle as nat,
        }
    }
}

/// The value of an optional field, or its default when it is absent.
pub open spec fn or_default<T>(v: Option<T>, d: T) -> T {
    match v {
        Some(x) => x,
        None => d,
    }
}

/// What building a parameter set from a configuration record yields: the
/// defaults fill the omitted numeric fields, and the algorithm name is
/// mandatory and must be recognised.
pub open spec fn built_from(
    r: Result<BloscCompression, CodecError>,
    blocksize: Option<usize>,
    clevel: Option<u8>,
    cname: Option<Seq<char>>,
    shuffle: Option<u8>,
) -> bool {
    match cname {
        Some(n) if compressor_named(n) is Some => {
            &&& r is Ok
            &&& r->Ok_0@ == BloscParams {
                blocksize: or_default(blocksize, 0usize) as nat,
                clevel: or_default(clevel, 5u8) as nat,
                cname: compressor_named(n)->Some_0,
                shuffle: or_default(shuffle, 1u8) as nat,
            }
        },
        _ => r == Err::<BloscCompression, CodecError>(CodecError::Configuration),
    }
}

/// The algorithm name as a character sequence, when it is given.
pub open spec fn name_view(cname: Option<&str>) -> Option<Seq<char>> {
    match cname {
        Some(s) => Some(s@),
        None => None,
    }
}

impl BloscCompression {
    /// Builds a parameter set from the fields of a configuration record,
    /// applying the defaults to the numeric fields that are absent.
    pub fn from_config(
        blocksize: Option<usize>,
        clevel: Option<u8>,
        cname: Option<&str>,
        shuffle: Option<u8>,
    ) -> (r: Result<BloscCompression, CodecError>)
        ensures
            built_from(r, blocksize, clevel, name_view(cname), shuffle),
    {
        let name = match cname {
            Some(n) => n,
            None => return Err(CodecError::Configuration),
        };
        let compressor = match Compressor::from_name(name) {
            Some(c) => c,
            None => return Err(CodecError::Configuration),
        };
        let blocksize = match blocksize {
            Some(b) => b,
            None => default_blosc_blocksize(),
        };
        let clevel = match clevel {
            Some(l) => l,
            None => default_blosc_clevel(),
        };
        let shuffle = match shuffle {
            Some(m) => m,
            None => default_blosc_shufflemode(),
        };
        Ok(BloscCompression { blocksize, clevel, cname: compressor, shuffle })
    }

    /// Block size hint; zero lets the engine choose.
    pub fn blocksize(&self) -> (r: usize)
        ensures
            r as nat == self@.blocksize,
    {
        self.blocksize
    }

    /// Compression level.
    pub fn clevel(&self) -> (r: u8)
        ensures
            r as nat == self@.clevel,
    {
        self.clevel
    }

    /// The configured algorithm.
    pub fn compressor(&self) -> (r: Compressor)
        ensures
            r == self@.cname,
    {
        self.cname
    }

    /// External identifier of the configured algorithm.
    pub fn cname(&self) -> (r: &'static str)
        ensures
            r@ == compressor_name(self@.cname),
    {
        self.cname.name()
    }

    /// Index of the shuffle mode: none, byte shuffle or bit shuffle.
    pub fn shuffle(&self) -> (r: u8)
        ensures
            r as nat == self@.shuffle,
    {
        self.shuffle
    }

    /// Two parameter sets are equal exactly when their contents are.
    pub proof fn lemma_view_injective(a: BloscCompression, b: BloscCompression)
        ensures
            a@ == b@ <==> a == b,
    {
    }
}

impl Default for BloscCompression {
    /// The fast default algorithm with the default block size, level and
    /// shuffle mode.
    fn default() -> (r: BloscCompression)
        ensures
            r@ == (BloscParams { blocksize: 0, clevel: 5, cname: Compressor::BloscLz, shuffle: 1 }),
    {
        BloscCompression {
            blocksize: default_blosc_blocksize(),
            clevel: 5,
            cname: Compressor::BloscLz,
            shuffle: default_blosc_shufflemode(),
        }
    }
}

/// Building a parameter set twice from the same configuration record gives
/// equal values, or the same error both times.
pub proof fn lemma_construction_deterministic(
    r1: Result<BloscCompression, CodecError>,
    r2: Result<BloscCompression, CodecError>,
    blocksize: Option<usize>,
    clevel: Option<u8>,
    cname: Option<Seq<char>>,
    shuffle: Option<u8>,
)
    requires
        built_from(r1, blocksize, clevel, cname, shuffle),
        built_from(r2, blocksize, clevel, cname, shuffle),
    ensures
        r1 == r2,
{
    if r1 is Ok {
        BloscCompression::lemma_view_injective(r1->Ok_0, r2->Ok_0);
    }
}

} // verus!
