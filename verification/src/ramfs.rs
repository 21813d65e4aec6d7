//! The in-memory file store: four files of up to 256 bytes, each under a
//! name of up to sixteen bytes.

use vstd::prelude::*;
use vstd::slice::slice_subrange;
use vstd::string::StringSliceAdditionalSpecFns;
use vstd::utf8::valid_utf8;

verus! {

/// The number of files that the store holds.
pub const MAX_FILES: usize = 4;

/// The largest size of a file in bytes.
pub const MAX_FILE_SIZE: usize = 256;

/// The number of bytes kept of a file's name.
pub const NAME_SIZE: usize = 16;

/// One file of the store.
#[derive(Clone, Copy)]
pub struct RamFile {
    name: [u8; 16],
    data: [u8; 256],
    size: usize,
    used: bool,
}

/// The store.
pub struct RamFs {
    files: [RamFile; 4],
}

/// The bytes kept of a name: its first sixteen bytes, or all of it and
/// zero bytes after it up to sixteen.
pub open spec fn kept_name(name: Seq<u8>) -> Seq<u8> {
    Seq::new(
        16,
        |j: int|
            if j < name.len() {
                name[j]
            } else {
                0u8
            },
    )
}

/// A byte sequence without the zero bytes at its end.
pub open spec fn without_trailing_zeros(bytes: Seq<u8>) -> Seq<u8>
    decreases bytes.len(),
{
    if bytes.len() > 0 && bytes.last() == 0 {
        without_trailing_zeros(bytes.drop_last())
    } else {
        bytes
    }
}

/// The name that a file is found under: its kept bytes without the zero
/// bytes at their end, or, where the kept bytes are not well-formed UTF-8
/// (a long name cut inside a character), the empty name.
pub open spec fn lookup_name(kept: Seq<u8>) -> Seq<u8> {
    if valid_utf8(kept) {
        without_trailing_zeros(kept)
    } else {
        Seq::empty()
    }
}

/// Tells whether bytes are well-formed UTF-8. This is
/// `core::str::from_utf8`, which succeeds exactly on well-formed input;
/// the claim that it agrees with `valid_utf8` is taken on trust.
#[verifier::external_body]
fn is_utf8(bytes: &[u8]) -> (ok: bool)
    ensures
        ok == valid_utf8(bytes@),
{
    core::str::from_utf8(bytes).is_ok()
}

/// The number of bytes that are left when the zero bytes at the end are
/// dropped.
fn trimmed_len(bytes: &[u8]) -> (n: usize)
    ensures
        n <= bytes@.len(),
        bytes@.subrange(0, n as int) == without_trailing_zeros(bytes@),
{
    let mut n: usize = bytes.len();
    proof {
        assert(bytes@.subrange(0, bytes@.len() as int) =~= bytes@);
    }
    while n > 0 && bytes[n - 1] == 0
        invariant
            n <= bytes@.len(),
            without_trailing_zeros(bytes@.subrange(0, n as int)) == without_trailing_zeros(bytes@),
        decreases n,
    {
        assert(bytes@.subrange(0, n as int).drop_last() =~= bytes@.subrange(0, n - 1));
        n -= 1;
    }
    n
}

/// Whether two byte strings are equal.
fn same_bytes(a: &[u8], b: &[u8]) -> (eq: bool)
    ensures
        eq == (a@ == b@),
{
    if a.len() != b.len() {
        return false;
    }
    let mut i: usize = 0;
    while i < a.len()
        invariant
            i <= a@.len(),
            a@.len() == b@.len(),
            forall|k: int| 0 <= k < i ==> a@[k] == b@[k],
        decreases a@.len() - i,
    {
        if a[i] != b[i] {
            return false;
        }
        i += 1;
    }
    assert(a@ =~= b@);
    true
}

impl RamFs {
    /// Whether the store has a file in slot `i`.
    pub closed spec fn used(&self, i: int) -> bool {
        self.files@[i].used
    }

    /// The kept name of the file in slot `i`.
    pub closed spec fn name(&self, i: int) -> Seq<u8> {
        self.files@[i].name@
    }

    /// The contents of the file in slot `i`.
    pub closed spec fn contents(&self, i: int) -> Seq<u8> {
        self.files@[i].data@.subrange(0, self.files@[i].size as int)
    }

    /// No file is larger than the limit.
    pub closed spec fn wf(&self) -> bool {
        forall|i: int| 0 <= i < 4 ==> (#[trigger] self.files@[i]).size <= 256
    }

    /// Whether slot `i` is the first free slot.
    pub open spec fn first_free(&self, i: int) -> bool {
        0 <= i < 4 && !self.used(i) && forall|k: int| 0 <= k < i ==> self.used(k)
    }

    /// Whether every slot holds a file.
    pub open spec fn full(&self) -> bool {
        forall|k: int| 0 <= k < 4 ==> self.used(k)
    }

    /// Whether the file in slot `i` is found under `name`.
    pub open spec fn answers(&self, i: int, name: Seq<u8>) -> bool {
        0 <= i < 4 && self.used(i) && lookup_name(self.name(i)) == name
    }

    /// Whether slots other than `i` are the same in both stores.
    pub open spec fn same_but(&self, other: &RamFs, i: int) -> bool {
        forall|k: int|
            0 <= k < 4 && k != i ==> self.used(k) == other.used(k) && self.name(k) == other.name(k)
                && self.contents(k) == other.contents(k)
    }

    /// An empty store.
    pub fn new() -> (fs: RamFs)
        ensures
            fs.wf(),
            forall|i: int| 0 <= i < 4 ==> !fs.used(i),
    {
        let blank = RamFile { name: [0; 16], data: [0; 256], size: 0, used: false };
        RamFs { files: [blank; 4] }
    }
}

/// Creates an empty file in the first free slot, under the first sixteen
/// bytes of `name`, and returns the slot. A full store is left unchanged
/// and gives `None`.
pub fn file_create(fs: &mut RamFs, name: &str) -> (slot: Option<usize>)
    requires
        old(fs).wf(),
    ensures
        final(fs).wf(),
        old(fs).full() ==> slot.is_none() && *final(fs) == *old(fs),
        !old(fs).full() ==> slot.is_some(),
        slot matches Some(i) ==> {
            &&& old(fs).first_free(i as int)
            &&& final(fs).used(i as int)
            &&& final(fs).name(i as int) == kept_name(name.spec_bytes())
            &&& final(fs).contents(i as int) == Seq::<u8>::empty()
            &&& final(fs).same_but(old(fs), i as int)
        },
{
    let bytes: &[u8] = name.as_bytes();
    let mut i: usize = 0;
    while i < MAX_FILES
        invariant
            i <= 4,
            *fs == *old(fs),
            fs.wf(),
            bytes@ == name.spec_bytes(),
            forall|k: int| 0 <= k < i ==> fs.used(k),
        decreases 4 - i,
    {
        if !fs.files[i].used {
            assert(!old(fs).used(i as int));
            let mut kept: [u8; 16] = [0; 16];
            let mut j: usize = 0;
            while j < NAME_SIZE && j < bytes.len()
                invariant
                    j <= 16,
                    j <= bytes@.len(),
                    forall|k: int| 0 <= k < j ==> kept@[k] == bytes@[k],
                    forall|k: int| j <= k < 16 ==> kept@[k] == 0,
                decreases 16 - j,
            {
                kept[j] = bytes[j];
                j += 1;
            }
            assert(kept@ =~= kept_name(bytes@));
            let file = RamFile { name: kept, data: fs.files[i].data, size: 0, used: true };
            fs.files[i] = file;
            assert(fs.contents(i as int) =~= Seq::<u8>::empty());
            return Some(i);
        }
        i += 1;
    }
    None
}

/// Replaces the contents of the file in slot `idx` by the first 256 bytes
/// of `data`. Without a file in that slot nothing changes and the result
/// is `false`.
pub fn file_write(fs: &mut RamFs, idx: usize, data: &[u8]) -> (done: bool)
    requires
        old(fs).wf(),
    ensures
        final(fs).wf(),
        done == (idx < 4 && old(fs).used(idx as int)),
        !done ==> *final(fs) == *old(fs),
        done ==> {
            &&& final(fs).used(idx as int)
            &&& final(fs).name(idx as int) == old(fs).name(idx as int)
            &&& final(fs).contents(idx as int) == data@.subrange(
                0,
                if data@.len() < 256 {
                    data@.len() as int
                } else {
                    256
                },
            )
            &&& final(fs).same_but(old(fs), idx as int)
        },
{
    if idx >= MAX_FILES || !fs.files[idx].used {
        return false;
    }
    let len: usize = if data.len() < MAX_FILE_SIZE {
        data.len()
    } else {
        MAX_FILE_SIZE
    };
    let mut stored: [u8; 256] = fs.files[idx].data;
    let mut j: usize = 0;
    while j < len
        invariant
            j <= len,
            len <= 256,
            len <= data@.len(),
            forall|k: int| 0 <= k < j ==> stored@[k] == data@[k],
        decreases len - j,
    {
        stored[j] = data[j];
        j += 1;
    }
    let file = RamFile { name: fs.files[idx].name, data: stored, size: len, used: true };
    fs.files[idx] = file;
    assert(fs.contents(idx as int) =~= data@.subrange(0, len as int));
    true
}

/// The contents of the file in slot `idx`, or `None` without a file there.
pub fn file_read(fs: &RamFs, idx: usize) -> (data: Option<&[u8]>)
    requires
        fs.wf(),
    ensures
        data.is_some() == (idx < 4 && fs.used(idx as int)),
        data matches Some(bytes) ==> bytes@ == fs.contents(idx as int),
{
    if idx >= MAX_FILES || !fs.files[idx].used {
        return None;
    }
    Some(slice_subrange(fs.files[idx].data.as_slice(), 0, fs.files[idx].size))
}

/// The first slot whose file is found under `name`, or `None` when no
/// file is.
pub fn file_find(fs: &RamFs, name: &str) -> (slot: Option<usize>)
    requires
        fs.wf(),
    ensures
        slot matches Some(i) ==> fs.answers(i as int, name.spec_bytes()) && forall|k: int|
            0 <= k < i ==> !fs.answers(k, name.spec_bytes()),
        slot.is_none() ==> forall|k: int| 0 <= k < 4 ==> !fs.answers(k, name.spec_bytes()),
{
    let wanted: &[u8] = name.as_bytes();
    let mut i: usize = 0;
    while i < MAX_FILES
        invariant
            i <= 4,
            wanted@ == name.spec_bytes(),
            forall|k: int| 0 <= k < i ==> !fs.answers(k, name.spec_bytes()),
        decreases 4 - i,
    {
        if fs.files[i].used {
            let kept: &[u8] = fs.files[i].name.as_slice();
            let n: usize = if is_utf8(kept) {
                trimmed_len(kept)
            } else {
                0
            };
            let found: &[u8] = slice_subrange(kept, 0, n);
            assert(found@ =~= lookup_name(fs.name(i as int)));
            if same_bytes(found, wanted) {
                return Some(i);
            }
        }
        i += 1;
    }
    None
}

} // verus!
