//! Paths and arguments as Unix holds them: bytes, not necessarily UTF-8.
use vstd::prelude::*;
use vstd::slice::slice_to_vec;
use vstd::utf8::encode_utf8;

verus! {

/// The byte that separates the components of a path.
pub const SEPARATOR: u8 = 47;

/// A path or an argument, byte by byte.
#[derive(Debug, PartialEq, Eq)]
pub struct OsText {
    pub bytes: Vec<u8>,
}

impl View for OsText {
    type V = Seq<u8>;

    open spec fn view(&self) -> Seq<u8> {
        self.bytes@
    }
}

impl DeepView for OsText {
    type V = Seq<u8>;

    open spec fn deep_view(&self) -> Seq<u8> {
        self.bytes@
    }
}

/// `path` taken relative to `base`: an absolute `path` stands for itself, any other is put behind
/// `base`, with a separator between them unless `base` is empty or already ends in one.
pub open spec fn path_join(base: Seq<u8>, path: Seq<u8>) -> Seq<u8> {
    if path.len() > 0 && path[0] == SEPARATOR {
        path
    } else if base.len() > 0 && base.last() != SEPARATOR {
        base.push(SEPARATOR) + path
    } else {
        base + path
    }
}

impl OsText {
    /// The UTF-8 bytes of `text`.
    pub fn from_text(text: &str) -> (r: OsText)
        ensures
            r@ == encode_utf8(text@),
    {
        OsText { bytes: slice_to_vec(text.as_bytes()) }
    }

    /// `path` taken relative to this path.
    pub fn join(&self, path: &str) -> (r: OsText)
        ensures
            r@ == path_join(self@, encode_utf8(path@)),
    {
        let mut tail: Vec<u8> = slice_to_vec(path.as_bytes());
        if tail.len() > 0 && tail[0] == SEPARATOR {
            return OsText { bytes: tail };
        }
        let mut bytes: Vec<u8> = slice_to_vec(self.bytes.as_slice());
        if bytes.len() > 0 && bytes[bytes.len() - 1] != SEPARATOR {
            bytes.push(SEPARATOR);
        }
        bytes.append(&mut tail);
        OsText { bytes }
    }
}

impl Clone for OsText {
    fn clone(&self) -> (r: Self)
        ensures
            r@ == self@,
    {
        OsText { bytes: slice_to_vec(self.bytes.as_slice()) }
    }
}

/// An absolute path stands for itself wherever it is taken from.
pub proof fn law_absolute_paths_stand_alone(base: Seq<u8>, path: Seq<u8>)
    requires
        path.len() > 0,
        path[0] == 47,
    ensures
        path_join(base, path) == path,
{
}

/// A relative path is found behind the base, whole, with exactly one separator between them that
/// the base brings along or that is put there; nothing is put behind an empty base.
pub proof fn law_relative_paths_go_behind_the_base(base: Seq<u8>, path: Seq<u8>)
    requires
        path.len() == 0 || path[0] != 47,
    ensures
        ({
            let whole = path_join(base, path);
            let gap = whole.len() - base.len() - path.len();
            &&& gap == if base.len() > 0 && base.last() != 47 {
                1int
            } else {
                0int
            }
            &&& forall|i: int| 0 <= i < base.len() ==> #[trigger] whole[i] == base[i]
            &&& gap == 1 ==> whole[base.len() as int] == 47
            &&& forall|i: int|
                0 <= i < path.len() ==> whole[base.len() + gap + i] == #[trigger] path[i]
        }),
{
}

/// A path or an argument is its bytes.
pub proof fn law_os_text_is_its_bytes(text: OsText)
    ensures
        text@ == text.bytes@,
        text.deep_view() == text.bytes@,
{
}

} // verus!
