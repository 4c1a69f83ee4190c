//! A bare-minimum reader of "newc" CPIO archives.
//!
//! Only the first file of the archive is looked at and the checksum is
//! ignored. The archive is the byte slice that starts at the archive's base.
use vstd::prelude::*;
use vstd::string::*;
use vstd::utf8::*;

verus! {

/// Length of a newc header in bytes.
pub const HEADER_LEN: usize = 110;

/// Length of the magic number at the start of every header.
pub const MAGIC_LEN: usize = 6;

/// Number of name bytes kept in a `FileEntry`.
pub const NAME_LEN: usize = 16;

/// Offset of the `file_size` field within a header.
pub const FILE_SIZE_OFFSET: usize = 54;

/// Offset of the `file_name_size` field within a header.
pub const FILE_NAME_SIZE_OFFSET: usize = 94;

/// The magic number "070701" of the newc format.
pub open spec fn magic_number() -> Seq<u8> {
    seq![0x30u8, 0x37u8, 0x30u8, 0x37u8, 0x30u8, 0x31u8]
}

/// Value of an ASCII hexadecimal digit, either case.
pub open spec fn hex_digit_value(b: u8) -> Option<nat> {
    if 0x30 <= b <= 0x39 {
        Some((b - 0x30) as nat)
    } else if 0x61 <= b <= 0x66 {
        Some((b - 0x61 + 10) as nat)
    } else if 0x41 <= b <= 0x46 {
        Some((b - 0x41 + 10) as nat)
    } else {
        None
    }
}

pub open spec fn is_hex_digit(b: u8) -> bool {
    hex_digit_value(b) is Some
}

/// The number written by a sequence of hexadecimal digits, most significant first.
pub open spec fn hex_number(s: Seq<u8>) -> nat
    decreases s.len(),
{
    if s.len() == 0 {
        0
    } else {
        hex_number(s.drop_last()) * 16 + hex_digit_value(s.last()).unwrap_or(0)
    }
}

/// Number of leading hexadecimal digits of `s`.
pub open spec fn hex_prefix_len(s: Seq<u8>) -> nat
    decreases s.len(),
{
    if s.len() == 0 || !is_hex_digit(s[0]) {
        0
    } else {
        1 + hex_prefix_len(s.drop_first())
    }
}

/// What `read_hex8_u32` reads from an eight-byte field: the number written by
/// its leading hexadecimal digits; where a byte that is no hexadecimal digit
/// stops the reading, that number is shifted by one more digit (times 16).
pub open spec fn hex8_value(s: Seq<u8>) -> nat {
    let k = hex_prefix_len(s);
    if k < s.len() {
        hex_number(s.take(k as int)) * 16
    } else {
        hex_number(s)
    }
}

/// `n` rounded up to a multiple of 4.
pub open spec fn align4(n: int) -> int {
    ((n + 3) / 4) * 4
}

/// 16 to the power `n`.
pub open spec fn pow16(n: nat) -> nat
    decreases n,
{
    if n == 0 {
        1
    } else {
        16 * pow16((n - 1) as nat)
    }
}

proof fn lemma_hex_number_bound(s: Seq<u8>)
    ensures
        hex_number(s) < pow16(s.len()),
    decreases s.len(),
{
    if s.len() > 0 {
        lemma_hex_number_bound(s.drop_last());
    }
}

proof fn lemma_pow16_monotone(a: nat, b: nat)
    requires
        a <= b,
    ensures
        pow16(a) <= pow16(b),
    decreases b,
{
    if a < b {
        lemma_pow16_monotone(a, (b - 1) as nat);
    }
}

/// Where the first `i` bytes are digits and byte `i` is not (or `s` ends),
/// the digit prefix has length `i`.
proof fn lemma_hex_prefix_len(s: Seq<u8>, i: int)
    requires
        0 <= i <= s.len(),
        forall|j: int| 0 <= j < i ==> is_hex_digit(#[trigger] s[j]),
        i == s.len() || !is_hex_digit(s[i]),
    ensures
        hex_prefix_len(s) == i,
    decreases i,
{
    if i > 0 {
        let t = s.drop_first();
        assert forall|j: int| 0 <= j < i - 1 implies is_hex_digit(#[trigger] t[j]) by {
            assert(t[j] == s[j + 1]);
        }
        lemma_hex_prefix_len(t, i - 1);
    }
}

/// Reads an eight-byte ASCII hexadecimal field, most significant digit first.
/// The first byte that is no hexadecimal digit ends the reading; the value
/// read so far has then already been shifted by one digit.
pub fn read_hex8_u32(s: &[u8; 8]) -> (r: u32)
    ensures
        r == hex8_value(s@),
{
    let mut r: u32 = 0;
    let mut i: usize = 0;
    proof {
        assert(s@.take(0) =~= Seq::<u8>::empty());
        reveal_with_fuel(pow16, 8);
    }
    while i < 8
        invariant
            0 <= i <= 8,
            s@.len() == 8,
            forall|j: int| 0 <= j < i ==> is_hex_digit(#[trigger] s@[j]),
            r == hex_number(s@.take(i as int)),
            pow16(7) == 0x1000_0000,
        decreases 8 - i,
    {
        proof {
            lemma_hex_number_bound(s@.take(i as int));
            lemma_pow16_monotone(i as nat, 7);
            assert(s@.take(i as int + 1).drop_last() =~= s@.take(i as int));
        }
        let b: u8 = s[i];
        r = r * 16;
        if b >= 0x30 && b <= 0x39 {
            r = r + (b - 0x30) as u32;
        } else if b >= 0x61 && b <= 0x66 {
            r = r + (b - 0x61 + 10) as u32;
        } else if b >= 0x41 && b <= 0x46 {
            r = r + (b - 0x41 + 10) as u32;
        } else {
            proof {
                lemma_hex_prefix_len(s@, i as int);
            }
            return r;
        }
        i = i + 1;
    }
    proof {
        lemma_hex_prefix_len(s@, 8);
        assert(s@.take(8) =~= s@);
    }
    r
}

/// What comparing the first `n` bytes returns: zero where they agree,
/// else the difference of the first pair of bytes that differ.
pub open spec fn byte_difference(s1: Seq<u8>, s2: Seq<u8>, n: int) -> int
    decreases n,
{
    if n <= 0 {
        0
    } else if s1[0] != s2[0] {
        s1[0] - s2[0]
    } else {
        byte_difference(s1.drop_first(), s2.drop_first(), n - 1)
    }
}

proof fn lemma_byte_difference_zero(s1: Seq<u8>, s2: Seq<u8>, n: int)
    requires
        0 <= n <= s1.len(),
        n <= s2.len(),
    ensures
        (byte_difference(s1, s2, n) == 0) <==> (s1.take(n) == s2.take(n)),
    decreases n,
{
    if n == 0 {
        assert(s1.take(n) =~= s2.take(n));
    } else {
        lemma_byte_difference_zero(s1.drop_first(), s2.drop_first(), n - 1);
        if s1[0] == s2[0] {
            assert(s1.take(n) =~= seq![s1[0]] + s1.drop_first().take(n - 1));
            assert(s2.take(n) =~= seq![s2[0]] + s2.drop_first().take(n - 1));
            if s1.take(n) == s2.take(n) {
                assert(s1.drop_first().take(n - 1) =~= s1.take(n).drop_first());
                assert(s2.drop_first().take(n - 1) =~= s2.take(n).drop_first());
            }
        } else {
            assert(s1.take(n)[0] != s2.take(n)[0]);
        }
    }
}

/// Compares the first `n` bytes of two byte strings, as C's memory comparison does:
/// zero where they are equal, else the difference of the first pair that differs.
pub fn mem_difference(s1: &[u8], s2: &[u8], n: usize) -> (r: i32)
    requires
        n <= s1@.len(),
        n <= s2@.len(),
    ensures
        r == byte_difference(s1@, s2@, n as int),
        (r == 0) <==> (s1@.take(n as int) == s2@.take(n as int)),
{
    let mut i: usize = 0;
    proof {
        assert(s1@.skip(0) =~= s1@);
        assert(s2@.skip(0) =~= s2@);
    }
    while i < n
        invariant
            i <= n,
            n <= s1@.len(),
            n <= s2@.len(),
            byte_difference(s1@, s2@, n as int) == byte_difference(
                s1@.skip(i as int),
                s2@.skip(i as int),
                (n - i) as int,
            ),
        decreases n - i,
    {
        let a: u8 = s1[i];
        let b: u8 = s2[i];
        if a != b {
            proof {
                lemma_byte_difference_zero(s1@, s2@, n as int);
            }
            return a as i32 - b as i32;
        }
        proof {
            assert(s1@.skip(i as int).drop_first() =~= s1@.skip(i as int + 1));
            assert(s2@.skip(i as int).drop_first() =~= s2@.skip(i as int + 1));
        }
        i = i + 1;
    }
    proof {
        lemma_byte_difference_zero(s1@, s2@, n as int);
    }
    0
}

/// Copies `N` bytes starting at `start` into an array.
fn copy_bytes<const N: usize>(bytes: &[u8], start: usize) -> (a: [u8; N])
    requires
        start + N <= bytes@.len(),
    ensures
        a@ =~= bytes@.subrange(start as int, start + N),
{
    let mut a: [u8; N] = [0u8; N];
    let len: usize = bytes.len();
    let mut i: usize = 0;
    while i < N
        invariant
            i <= N,
            start + N <= bytes@.len(),
            len == bytes@.len(),
            a@.len() == N,
            forall|j: int| 0 <= j < i ==> a@[j] == bytes@[start + j],
        decreases N - i,
    {
        a[i] = bytes[start + i];
        i = i + 1;
    }
    a
}

/// The magic number "070701" that starts a newc header.
pub fn magic_bytes() -> (m: [u8; 6])
    ensures
        m@ == magic_number(),
{
    let m: [u8; 6] = [0x30u8, 0x37u8, 0x30u8, 0x37u8, 0x30u8, 0x31u8];
    assert(m@ =~= magic_number());
    m
}

/// Whether `base` starts with the newc magic number.
pub fn has_magic(base: &[u8]) -> (r: bool)
    ensures
        r == (base@.len() >= MAGIC_LEN && base@.take(MAGIC_LEN as int) == magic_number()),
{
    if base.len() < MAGIC_LEN {
        return false;
    }
    let m = magic_bytes();
    let diff = mem_difference(base, m.as_slice(), MAGIC_LEN);
    proof {
        assert(m@.take(6) =~= m@);
    }
    diff == 0
}

/// The fields of a newc header, each as the ASCII bytes that the archive holds.
pub struct RawHeader {
    pub magic: [u8; 6],
    pub inode: [u8; 8],
    pub mode: [u8; 8],
    pub uid: [u8; 8],
    pub gid: [u8; 8],
    pub nlink: [u8; 8],
    pub mtime: [u8; 8],
    pub file_size: [u8; 8],
    pub dev_major: [u8; 8],
    pub dev_minor: [u8; 8],
    pub rdev_major: [u8; 8],
    pub rdev_minor: [u8; 8],
    pub file_name_size: [u8; 8],
    pub checksum: [u8; 8],
}

/// The eight bytes of header field `k` (counting from 0 after the magic number).
pub open spec fn header_field(bytes: Seq<u8>, k: int) -> Seq<u8> {
    bytes.subrange(MAGIC_LEN + 8 * k, MAGIC_LEN + 8 * k + 8)
}

impl RawHeader {
    /// The header laid out, field by field, in the first `HEADER_LEN` bytes of `bytes`.
    pub open spec fn is_header_of(&self, bytes: Seq<u8>) -> bool {
        &&& self.magic@ == bytes.take(MAGIC_LEN as int)
        &&& self.inode@ == header_field(bytes, 0)
        &&& self.mode@ == header_field(bytes, 1)
        &&& self.uid@ == header_field(bytes, 2)
        &&& self.gid@ == header_field(bytes, 3)
        &&& self.nlink@ == header_field(bytes, 4)
        &&& self.mtime@ == header_field(bytes, 5)
        &&& self.file_size@ == header_field(bytes, 6)
        &&& self.dev_major@ == header_field(bytes, 7)
        &&& self.dev_minor@ == header_field(bytes, 8)
        &&& self.rdev_major@ == header_field(bytes, 9)
        &&& self.rdev_minor@ == header_field(bytes, 10)
        &&& self.file_name_size@ == header_field(bytes, 11)
        &&& self.checksum@ == header_field(bytes, 12)
    }
}

/// The first file of an archive: its name (the first `NAME_LEN` bytes after
/// the header), its size, and where its data starts, counted from the base of
/// the archive.
pub struct FileEntry {
    name: [u8; 16],
    size: usize,
    data_offset: usize,
}

/// A reader over a newc archive whose first bytes are `base`.
pub struct Reader<'a> {
    archive_size: usize,
    base: &'a [u8],
}

/// Size of the file of the first entry of `bytes`, as the header gives it.
pub open spec fn entry_file_size(bytes: Seq<u8>) -> nat {
    hex8_value(header_field(bytes, 6))
}

/// Size of the name of the first entry, NUL byte included, as the header gives it.
pub open spec fn entry_name_size(bytes: Seq<u8>) -> nat {
    hex8_value(header_field(bytes, 11))
}

/// Where the data of the first entry starts: after the header and the name,
/// rounded up to a multiple of 4.
pub open spec fn entry_data_offset(bytes: Seq<u8>) -> int {
    align4(HEADER_LEN + entry_name_size(bytes))
}

impl<'a> Reader<'a> {
    pub closed spec fn bytes(&self) -> Seq<u8> {
        self.base@
    }

    pub closed spec fn spec_archive_size(&self) -> usize {
        self.archive_size
    }

    /// A reader over the archive that starts at `base`, of `archive_size` bytes.
    /// The archive must start with the newc magic number.
    pub fn new(base: &'a [u8], archive_size: usize) -> (r: Reader<'a>)
        requires
            base@.len() >= MAGIC_LEN,
            base@.take(MAGIC_LEN as int) == magic_number(),
        ensures
            r.bytes() == base@,
            r.spec_archive_size() == archive_size,
    {
        Reader { archive_size, base }
    }

    /// The size that the reader was made with.
    pub fn archive_size(&self) -> (n: usize)
        ensures
            n == self.spec_archive_size(),
    {
        self.archive_size
    }

    /// The header of the first entry.
    pub fn raw_header(&self) -> (h: RawHeader)
        requires
            self.bytes().len() >= HEADER_LEN,
        ensures
            h.is_header_of(self.bytes()),
    {
        let b = self.base;
        RawHeader {
            magic: copy_bytes::<6>(b, 0),
            inode: copy_bytes::<8>(b, 6),
            mode: copy_bytes::<8>(b, 14),
            uid: copy_bytes::<8>(b, 22),
            gid: copy_bytes::<8>(b, 30),
            nlink: copy_bytes::<8>(b, 38),
            mtime: copy_bytes::<8>(b, 46),
            file_size: copy_bytes::<8>(b, 54),
            dev_major: copy_bytes::<8>(b, 62),
            dev_minor: copy_bytes::<8>(b, 70),
            rdev_major: copy_bytes::<8>(b, 78),
            rdev_minor: copy_bytes::<8>(b, 86),
            file_name_size: copy_bytes::<8>(b, 94),
            checksum: copy_bytes::<8>(b, 102),
        }
    }

    /// The first entry of the archive. The header, and the `NAME_LEN` bytes
    /// after it, must be within the archive, and the name, with its NUL
    /// byte, at most `NAME_LEN` bytes long.
    pub fn parse_entry(&self) -> (e: FileEntry)
        requires
            self.bytes().len() >= HEADER_LEN + NAME_LEN,
            entry_name_size(self.bytes()) <= NAME_LEN,
        ensures
            e.name() == self.bytes().subrange(HEADER_LEN as int, HEADER_LEN + NAME_LEN),
            e.size() == entry_file_size(self.bytes()),
            e.data_offset() == entry_data_offset(self.bytes()),
    {
        let hdr = self.raw_header();
        let file_size = read_hex8_u32(&hdr.file_size) as usize;
        let file_name_size = read_hex8_u32(&hdr.file_name_size) as usize;
        let file_name = copy_bytes::<16>(self.base, HEADER_LEN);
        let unaligned: usize = HEADER_LEN + file_name_size;
        let bumped: usize = unaligned + 4 - 1;
        let entry_data_index: usize = bumped & !(4usize - 1);
        assert(entry_data_index == align4(unaligned as int)) by {
            assert((bumped & !3usize) == (bumped / 4) * 4) by (bit_vector)
                requires
                    bumped <= 129usize,
            ;
        }
        FileEntry { name: file_name, size: file_size, data_offset: entry_data_index }
    }
}

impl FileEntry {
    pub closed spec fn name(&self) -> Seq<u8> {
        self.name@
    }

    /// The name of an entry is always `NAME_LEN` bytes long.
    pub proof fn lemma_name_len(&self)
        ensures
            self.name().len() == NAME_LEN,
    {
    }

    pub closed spec fn size(&self) -> nat {
        self.size as nat
    }

    pub closed spec fn data_offset(&self) -> int {
        self.data_offset as int
    }

    /// The name of the file: the first `NAME_LEN - 1` name bytes, which must be
    /// valid UTF-8.
    pub fn file_name(&self) -> (s: &str)
        requires
            valid_utf8(self.name().take(NAME_LEN - 1)),
        ensures
            s.spec_bytes() == self.name().take(NAME_LEN - 1),
    {
        let (head, _tail) = self.name.as_slice().split_at(NAME_LEN - 1);
        match str_from_utf8(head) {
            Some(s) => s,
            None => {
                proof {
                    assert(head@ =~= self.name().take(NAME_LEN - 1));
                }
                unreached()
            },
        }
    }

    /// Size of the file's data in bytes.
    pub fn file_size(&self) -> (n: usize)
        ensures
            n == self.size(),
    {
        self.size
    }

    /// Where the file's data starts, counted in bytes from the base of the archive.
    pub fn data_ptr(&self) -> (off: usize)
        ensures
            off == self.data_offset(),
    {
        self.data_offset
    }
}

/// `core::str::from_utf8`, with its error dropped: it gives a string exactly
/// when the bytes are valid UTF-8, and that string is made of those bytes.
#[verifier::external_body]
fn str_from_utf8(v: &[u8]) -> (r: Option<&str>)
    ensures
        r is Some <==> valid_utf8(v@),
        r is Some ==> r->0.spec_bytes() == v@,
{
    core::str::from_utf8(v).ok()
}

/// The lowercase ASCII hexadecimal digit of `d`, for `d < 16`.
pub open spec fn hex_char(d: nat) -> u8 {
    if d < 10 {
        (0x30 + d) as u8
    } else {
        (0x61 + d - 10) as u8
    }
}

/// The `k` lowest hexadecimal digits of `n`, most significant first, as a
/// newc writer puts them out.
pub open spec fn hex_encode(n: nat, k: nat) -> Seq<u8>
    decreases k,
{
    if k == 0 {
        Seq::empty()
    } else {
        hex_encode(n / 16, (k - 1) as nat).push(hex_char(n % 16))
    }
}

proof fn lemma_hex_encode(n: nat, k: nat)
    ensures
        hex_encode(n, k).len() == k,
        forall|j: int| 0 <= j < k ==> is_hex_digit(#[trigger] hex_encode(n, k)[j]),
        hex_number(hex_encode(n, k)) == n % pow16(k),
    decreases k,
{
    if k > 0 {
        let k1 = (k - 1) as nat;
        lemma_hex_encode(n / 16, k1);
        let e = hex_encode(n, k);
        assert(e.drop_last() =~= hex_encode(n / 16, k1));
        assert(hex_digit_value(hex_char(n % 16)) == Some(n % 16));
        assert forall|j: int| 0 <= j < k implies is_hex_digit(#[trigger] e[j]) by {
            if j < k1 {
                assert(e[j] == hex_encode(n / 16, k1)[j]);
            }
        }
        lemma_pow16_monotone(0, k1);
        vstd::arithmetic::div_mod::lemma_breakdown(n as int, 16, pow16(k1) as int);
        assert(pow16(k) == 16 * pow16(k1));
        vstd::arithmetic::mul::lemma_mul_is_commutative(16, pow16(k1) as int);
        vstd::arithmetic::mul::lemma_mul_is_commutative(16, ((n / 16) % pow16(k1)) as int);
    }
}

/// Reading back the eight-digit hexadecimal field that a newc writer puts out
/// for a 32-bit number gives that number.
pub proof fn lemma_read_hex8_of_encoding(n: u32)
    ensures
        hex8_value(hex_encode(n as nat, 8)) == n,
{
    let e = hex_encode(n as nat, 8);
    lemma_hex_encode(n as nat, 8);
    lemma_hex_prefix_len(e, 8);
    assert(pow16(8) == 0x1_0000_0000) by {
        reveal_with_fuel(pow16, 9);
    }
    vstd::arithmetic::div_mod::lemma_small_mod(n as nat, pow16(8));
}

/// The data of the first entry starts at a multiple of 4, right after the
/// header and the name, within 3 bytes of padding.
pub proof fn lemma_entry_data_offset(bytes: Seq<u8>)
    ensures
        entry_data_offset(bytes) % 4 == 0,
        HEADER_LEN + entry_name_size(bytes) <= entry_data_offset(bytes),
        entry_data_offset(bytes) < HEADER_LEN + entry_name_size(bytes) + 4,
{
    let n = HEADER_LEN + entry_name_size(bytes);
    assert(align4(n) == ((n + 3) / 4) * 4);
    assert((((n + 3) / 4) * 4) % 4 == 0) by (nonlinear_arith);
    assert(n <= ((n + 3) / 4) * 4 < n + 4) by (nonlinear_arith);
}

/// `b` with an uppercase ASCII letter `A`..`F` turned into its lowercase one.
pub open spec fn lower_hex_letter(b: u8) -> u8 {
    if 0x41 <= b <= 0x46 {
        (b + 0x20) as u8
    } else {
        b
    }
}

/// `s` with its uppercase letters `A`..`F` lowercased.
pub open spec fn lower_hex_letters(s: Seq<u8>) -> Seq<u8> {
    Seq::new(s.len(), |i: int| lower_hex_letter(s[i]))
}

/// The uppercase ASCII hexadecimal digit of `d`, for `d < 16`.
pub open spec fn upper_hex_char(d: nat) -> u8 {
    if d < 10 {
        (0x30 + d) as u8
    } else {
        (0x41 + d - 10) as u8
    }
}

/// The `k` lowest hexadecimal digits of `n` in uppercase, most significant
/// first, as some newc writers put them out.
pub open spec fn hex_encode_upper(n: nat, k: nat) -> Seq<u8>
    decreases k,
{
    if k == 0 {
        Seq::empty()
    } else {
        hex_encode_upper(n / 16, (k - 1) as nat).push(upper_hex_char(n % 16))
    }
}

proof fn lemma_prefix_len_bound(s: Seq<u8>)
    ensures
        hex_prefix_len(s) <= s.len(),
    decreases s.len(),
{
    if s.len() > 0 {
        lemma_prefix_len_bound(s.drop_first());
    }
}

proof fn lemma_lower_prefix_len(s: Seq<u8>)
    ensures
        hex_prefix_len(lower_hex_letters(s)) == hex_prefix_len(s),
    decreases s.len(),
{
    if s.len() > 0 {
        assert(lower_hex_letters(s).drop_first() =~= lower_hex_letters(s.drop_first()));
        lemma_lower_prefix_len(s.drop_first());
    }
}

proof fn lemma_lower_number(s: Seq<u8>)
    ensures
        hex_number(lower_hex_letters(s)) == hex_number(s),
    decreases s.len(),
{
    if s.len() > 0 {
        assert(lower_hex_letters(s).drop_last() =~= lower_hex_letters(s.drop_last()));
        lemma_lower_number(s.drop_last());
    }
}

/// An uppercase hexadecimal letter reads as the same digit as its lowercase
/// one: reading a field gives what reading it with its letters lowercased
/// gives.
pub proof fn lemma_read_hex8_case_insensitive(s: Seq<u8>)
    requires
        s.len() == 8,
    ensures
        hex8_value(s) == hex8_value(lower_hex_letters(s)),
{
    let t = lower_hex_letters(s);
    lemma_lower_prefix_len(s);
    lemma_prefix_len_bound(s);
    let k = hex_prefix_len(s) as int;
    assert(t.take(k) =~= lower_hex_letters(s.take(k)));
    lemma_lower_number(s.take(k));
    lemma_lower_number(s);
}

proof fn lemma_lower_upper_encoding(n: nat, k: nat)
    ensures
        lower_hex_letters(hex_encode_upper(n, k)) == hex_encode(n, k),
    decreases k,
{
    if k > 0 {
        lemma_lower_upper_encoding(n / 16, (k - 1) as nat);
        assert(lower_hex_letters(hex_encode_upper(n, k)) =~= hex_encode(n, k));
    }
}

/// Reading back the eight-digit uppercase hexadecimal field written for a
/// 32-bit number gives that number.
pub proof fn lemma_read_hex8_of_upper_encoding(n: u32)
    ensures
        hex8_value(hex_encode_upper(n as nat, 8)) == n,
{
    let e = hex_encode_upper(n as nat, 8);
    lemma_lower_upper_encoding(n as nat, 8);
    lemma_read_hex8_of_encoding(n);
    lemma_hex_encode(n as nat, 8);
    assert(e.len() == 8);
    lemma_read_hex8_case_insensitive(e);
}

/// A single uppercase letter digit at the end of a field of zeros reads as
/// its value: `A`..`F` are the digits 10..15.
pub proof fn lemma_read_hex8_upper_letter(d: nat)
    requires
        10 <= d < 16,
    ensures
        hex8_value(seq![0x30u8, 0x30, 0x30, 0x30, 0x30, 0x30, 0x30, (0x41 + d - 10) as u8]) == d,
{
    let s = seq![0x30u8, 0x30, 0x30, 0x30, 0x30, 0x30, 0x30, (0x41 + d - 10) as u8];
    assert(s =~= hex_encode_upper(d, 8)) by {
        reveal_with_fuel(hex_encode_upper, 9);
    }
    lemma_read_hex8_of_upper_encoding(d as u32);
}

} // verus!
