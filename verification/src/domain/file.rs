//! Bounded, transport-neutral file references and metadata.

use vstd::prelude::*;
use vstd::string::{StrSliceExecFns, StringExecFns};

use crate::domain::checks::same_outcome;
use crate::domain::error::{ApiDomainError, ApiDomainErrorCode, invalid_argument, limit_exceeded};
use crate::text::{char_is_ascii_alphanumeric, char_is_control, is_ascii_alphanumeric, is_control_char, utf8_byte_len, utf8_len};

verus! {

/// Maximum encoded size of one file display name in UTF-8 bytes.
pub const MAX_FILE_DISPLAY_NAME_BYTES: usize = 255;

/// Maximum encoded size of one normalized file media type in ASCII bytes.
pub const MAX_FILE_MEDIA_TYPE_BYTES: usize = 127;

/// Maximum exact byte length of one file.
pub const MAX_FILE_BYTES: usize = 536_870_912;

/// Exact width of a file reference in bytes.
pub const FILE_REFERENCE_BYTES: usize = 32;

/// Exact width of a SHA-256 digest in bytes.
pub const FILE_DIGEST_BYTES: usize = 32;

/// One opaque fixed-width reference issued by a trusted file service.
#[derive(Clone, Copy, PartialEq, Eq, Hash)]
pub struct FileReference(pub [u8; 32]);

impl FileReference {
    /// Creates a reference from exactly 32 opaque bytes issued by a trusted service.
    pub fn new(value: [u8; 32]) -> (res: Self)
        ensures
            res.0 == value,
    {
        FileReference(value)
    }

    /// Returns the opaque reference bytes to a trusted file adapter.
    pub fn as_bytes(&self) -> (res: &[u8; 32])
        ensures
            *res == self.0,
    {
        &self.0
    }

    /// Reports whether two references name the same file.
    pub fn same_reference(&self, other: &FileReference) -> (res: bool)
        ensures
            res == (*self == *other),
    {
        let mut i: usize = 0;
        while i < 32
            invariant
                i <= 32,
                self.0@.len() == 32,
                other.0@.len() == 32,
                forall|j: int| 0 <= j < i ==> self.0@[j] == other.0@[j],
            decreases 32 - i,
        {
            if self.0[i] != other.0[i] {
                return false;
            }
            i = i + 1;
        }
        assert(self.0 =~= other.0);
        true
    }
}

/// One exact SHA-256 digest supplied or verified at a trusted file boundary.
#[derive(Clone, Copy, PartialEq, Eq, Hash)]
pub struct FileDigest(pub [u8; 32]);

impl FileDigest {
    /// Creates a digest from exactly 32 SHA-256 bytes.
    pub fn new(value: [u8; 32]) -> (res: Self)
        ensures
            res.0 == value,
    {
        FileDigest(value)
    }

    /// Returns the digest bytes to a trusted file adapter.
    pub fn as_bytes(&self) -> (res: &[u8; 32])
        ensures
            *res == self.0,
    {
        &self.0
    }

    /// Reports whether two digests hold the same bytes.
    pub fn same_bytes(&self, other: &FileDigest) -> (res: bool)
        ensures
            res == (self.0@ == other.0@),
    {
        let mut i: usize = 0;
        while i < 32
            invariant
                i <= 32,
                self.0@.len() == 32,
                other.0@.len() == 32,
                forall|j: int| 0 <= j < i ==> self.0@[j] == other.0@[j],
            decreases 32 - i,
        {
            if self.0[i] != other.0[i] {
                return false;
            }
            i = i + 1;
        }
        assert(self.0@ =~= other.0@);
        true
    }
}

/// Characters forbidden in display names: controls and both path separators.
pub open spec fn forbidden_display_name_char(c: char) -> bool {
    is_control_char(c) || c == '/' || c == '\\'
}

/// Outcome of validating a display name.
pub open spec fn display_name_check(s: Seq<char>) -> Result<(), ApiDomainErrorCode> {
    if utf8_len(s) > MAX_FILE_DISPLAY_NAME_BYTES {
        Err(ApiDomainErrorCode::LimitExceeded)
    } else if s.len() == 0 || exists|i: int| 0 <= i < s.len() && forbidden_display_name_char(s[i]) {
        Err(ApiDomainErrorCode::InvalidArgument)
    } else {
        Ok(())
    }
}

/// One validated file name intended only for display and download metadata.
#[derive(PartialEq, Eq, Hash)]
pub struct FileDisplayName(String);

impl View for FileDisplayName {
    type V = Seq<char>;

    closed spec fn view(&self) -> Seq<char> {
        self.0@
    }
}

impl Clone for FileDisplayName {
    fn clone(&self) -> (res: Self)
        ensures
            res@ == self@,
    {
        proof {
            use_type_invariant(self);
        }
        FileDisplayName(self.0.clone())
    }
}

impl FileDisplayName {
    #[verifier::type_invariant]
    spec fn valid(self) -> bool {
        display_name_check(self.0@) is Ok
    }

    /// Validates and copies a name of 1 to 255 UTF-8 bytes without control
    /// characters, `/`, or `\`.
    pub fn new(value: &str) -> (res: Result<Self, ApiDomainError>)
        ensures
            same_outcome(res, display_name_check(value@)),
            res matches Ok(n) ==> n@ == value@,
    {
        if utf8_byte_len(value) > MAX_FILE_DISPLAY_NAME_BYTES {
            return Err(limit_exceeded());
        }
        if value.is_empty() {
            return Err(invalid_argument());
        }
        let mut found = false;
        for c in it: value.chars()
            invariant
                it.seq() == value@,
                found == (exists|j: int| 0 <= j < it.index() && forbidden_display_name_char(value@[j])),
        {
            if char_is_control(c) || c == '/' || c == '\\' {
                found = true;
            }
        }
        if found {
            return Err(invalid_argument());
        }
        Ok(FileDisplayName(value.to_owned()))
    }

    /// Returns the validated display name to a trusted file adapter.
    pub fn as_str(&self) -> (res: &str)
        ensures
            res@ == self@,
            display_name_check(res@) is Ok,
    {
        proof {
            use_type_invariant(self);
        }
        self.0.as_str()
    }

    /// Returns the display name's encoded UTF-8 byte count.
    pub fn encoded_bytes(&self) -> (res: usize)
        ensures
            res == utf8_len(self@),
    {
        utf8_byte_len(self.0.as_str())
    }

    /// Reports whether two names hold the same text.
    pub fn same_text(&self, other: &FileDisplayName) -> (res: bool)
        ensures
            res == (self@ == other@),
    {
        self.0 == other.0
    }
}

/// RFC token characters other than `*`: ASCII letters, digits, and
/// ``!#$%&'+-.^_`|~``.
pub open spec fn is_media_token_char(c: char) -> bool {
    is_ascii_alphanumeric(c) || c == '!' || c == '#' || c == '$' || c == '%' || c == '&' || c
        == '\'' || c == '+' || c == '-' || c == '.' || c == '^' || c == '_' || c == '`' || c
        == '|' || c == '~'
}

/// Exactly one `type/subtype` pair of non-empty token runs.
pub open spec fn media_type_syntax(s: Seq<char>) -> bool {
    exists|k: int|
        0 < k < s.len() - 1 && s[k] == '/' && forall|i: int|
            0 <= i < s.len() && i != k ==> is_media_token_char(#[trigger] s[i])
}

/// Outcome of validating a media type.
pub open spec fn media_type_check(s: Seq<char>) -> Result<(), ApiDomainErrorCode> {
    if utf8_len(s) > MAX_FILE_MEDIA_TYPE_BYTES {
        Err(ApiDomainErrorCode::LimitExceeded)
    } else if !media_type_syntax(s) {
        Err(ApiDomainErrorCode::InvalidArgument)
    } else {
        Ok(())
    }
}

/// ASCII lowercase mapping of one character.
pub open spec fn ascii_lower(c: char) -> char {
    if 'A' <= c && c <= 'Z' {
        ((c as u32) + 32) as char
    } else {
        c
    }
}

/// ASCII lowercase mapping of a character sequence.
pub open spec fn ascii_lowercase(s: Seq<char>) -> Seq<char> {
    s.map_values(|c: char| ascii_lower(c))
}

/// Exec form of [`is_media_token_char`].
pub fn char_is_media_token(c: char) -> (res: bool)
    ensures
        res == is_media_token_char(c),
{
    char_is_ascii_alphanumeric(c) || c == '!' || c == '#' || c == '$' || c == '%' || c == '&'
        || c == '\'' || c == '+' || c == '-' || c == '.' || c == '^' || c == '_' || c == '`'
        || c == '|' || c == '~'
}

/// Reports whether `value` is exactly one `type/subtype` pair of tokens.
pub fn has_media_type_syntax(value: &str) -> (res: bool)
    ensures
        res == media_type_syntax(value@),
{
    let ghost s = value@;
    let ghost mut k: int = 0;
    let mut first = true;
    let mut first_is_slash = false;
    let mut last_is_slash = false;
    let mut seen = false;
    let mut two_slashes = false;
    let mut tokens_ok = true;
    for c in it: value.chars()
        invariant
            it.seq() == s,
            first == (it.index() == 0),
            it.index() > 0 ==> first_is_slash == (s[0] == '/'),
            it.index() > 0 ==> last_is_slash == (s[it.index() - 1] == '/'),
            tokens_ok == (forall|j: int| 0 <= j < it.index() && s[j] != '/' ==> is_media_token_char(s[j])),
            seen == (exists|j: int| 0 <= j < it.index() && s[j] == '/'),
            seen ==> 0 <= k < it.index() && s[k] == '/',
            !two_slashes ==> seen ==> forall|j: int| 0 <= j < it.index() && s[j] == '/' ==> j == k,
            two_slashes ==> exists|a: int, b: int| 0 <= a < b < it.index() && s[a] == '/' && s[b] == '/',
    {
        let is_slash = c == '/';
        if first {
            first_is_slash = is_slash;
            first = false;
        }
        last_is_slash = is_slash;
        if is_slash {
            if seen {
                two_slashes = true;
            } else {
                seen = true;
                proof {
                    k = it.index() as int;
                }
            }
        } else if !char_is_media_token(c) {
            tokens_ok = false;
        }
    }
    let res = seen && !two_slashes && !first_is_slash && !last_is_slash && tokens_ok;
    proof {
        if res {
            assert(0 < k < s.len() - 1);
            assert forall|i: int| 0 <= i < s.len() && i != k implies is_media_token_char(#[trigger] s[i]) by {
                assert(s[i] != '/');
            }
        }
        if media_type_syntax(s) {
            let k2 = choose|k2: int| 0 < k2 < s.len() - 1 && s[k2] == '/' && forall|i: int|
                0 <= i < s.len() && i != k2 ==> is_media_token_char(#[trigger] s[i]);
            assert(!is_media_token_char('/'));
            assert forall|j: int| 0 <= j < s.len() && s[j] == '/' implies j == k2 by {
                if j != k2 {
                    assert(is_media_token_char(s[j]));
                }
            }
            assert(seen);
            if two_slashes {
                let (a, b) = choose|a: int, b: int| 0 <= a < b < s.len() && s[a] == '/' && s[b] == '/';
                assert(a == k2 && b == k2);
            }
            assert(s[0] != '/');
            assert(s[s.len() - 1] != '/');
            assert forall|j: int| 0 <= j < s.len() && s[j] != '/' implies is_media_token_char(s[j]) by {
                assert(j != k2);
            }
        }
    }
    res
}

/// The one-character text of the lowercase form of ASCII capital `c`.
fn lowercase_letter(c: char) -> (res: &'static str)
    requires
        'A' <= c <= 'Z',
    ensures
        res@ == seq![ascii_lower(c)],
{
    proof {
        reveal_strlit("a");
        reveal_strlit("b");
        reveal_strlit("c");
        reveal_strlit("d");
        reveal_strlit("e");
        reveal_strlit("f");
        reveal_strlit("g");
        reveal_strlit("h");
        reveal_strlit("i");
        reveal_strlit("j");
        reveal_strlit("k");
        reveal_strlit("l");
        reveal_strlit("m");
        reveal_strlit("n");
        reveal_strlit("o");
        reveal_strlit("p");
        reveal_strlit("q");
        reveal_strlit("r");
        reveal_strlit("s");
        reveal_strlit("t");
        reveal_strlit("u");
        reveal_strlit("v");
        reveal_strlit("w");
        reveal_strlit("x");
        reveal_strlit("y");
        reveal_strlit("z");
    }
    match c {
        'A' => "a",
        'B' => "b",
        'C' => "c",
        'D' => "d",
        'E' => "e",
        'F' => "f",
        'G' => "g",
        'H' => "h",
        'I' => "i",
        'J' => "j",
        'K' => "k",
        'L' => "l",
        'M' => "m",
        'N' => "n",
        'O' => "o",
        'P' => "p",
        'Q' => "q",
        'R' => "r",
        'S' => "s",
        'T' => "t",
        'U' => "u",
        'V' => "v",
        'W' => "w",
        'X' => "x",
        'Y' => "y",
        _ => "z",
    }
}

/// Returns the ASCII-lowercased copy of `value`: each ASCII capital becomes
/// its small letter and every other character stays as it is.
pub(crate) fn to_ascii_lowercase(value: &str) -> (res: String)
    ensures
        res@ == ascii_lowercase(value@),
{
    let n = value.unicode_len();
    let ascii = value.is_ascii();
    let mut out = String::new();
    let mut start: usize = 0;
    let mut i: usize = 0;
    for c in it: value.chars()
        invariant
            it.seq() == value@,
            n == value@.len(),
            ascii == value.is_ascii(),
            i == it.index(),
            start <= i,
            out@ == ascii_lowercase(value@.subrange(0, start as int)),
            forall|j: int| start <= j < i ==> !('A' <= #[trigger] value@[j] <= 'Z'),
    {
        if 'A' <= c && c <= 'Z' {
            let run = if ascii {
                value.substring_ascii(start, i)
            } else {
                value.substring_char(start, i)
            };
            let ghost before = out@;
            out.append(run);
            out.append(lowercase_letter(c));
            proof {
                assert(ascii_lowercase(run@) =~= run@);
                assert(value@.subrange(0, i + 1) =~= value@.subrange(0, start as int) + run@ + seq![c]);
                assert(ascii_lowercase(value@.subrange(0, i + 1)) =~= ascii_lowercase(value@.subrange(0, start as int))
                    + ascii_lowercase(run@) + seq![ascii_lower(c)]);
            }
            start = i + 1;
        }
        i = i + 1;
    }
    let tail = if ascii {
        value.substring_ascii(start, n)
    } else {
        value.substring_char(start, n)
    };
    out.append(tail);
    proof {
        assert(ascii_lowercase(tail@) =~= tail@);
        assert(value@ =~= value@.subrange(0, start as int) + tail@);
        assert(ascii_lowercase(value@) =~= ascii_lowercase(value@.subrange(0, start as int)) + ascii_lowercase(tail@));
    }
    out
}

/// One concrete normalized Internet media type for file metadata.
#[derive(PartialEq, Eq, Hash)]
pub struct FileMediaType(String);

impl View for FileMediaType {
    type V = Seq<char>;

    closed spec fn view(&self) -> Seq<char> {
        self.0@
    }
}

impl Clone for FileMediaType {
    fn clone(&self) -> (res: Self)
        ensures
            res@ == self@,
    {
        proof {
            use_type_invariant(self);
        }
        FileMediaType(self.0.clone())
    }
}

/// Lowercasing keeps the media-type grammar and the byte count.
pub proof fn lemma_lowercase_keeps_media_type(s: Seq<char>)
    requires
        media_type_check(s) is Ok,
    ensures
        media_type_check(ascii_lowercase(s)) is Ok,
        ascii_lowercase(ascii_lowercase(s)) == ascii_lowercase(s),
{
    let t = ascii_lowercase(s);
    let k = choose|k: int| 0 < k < s.len() - 1 && s[k] == '/' && forall|i: int|
        0 <= i < s.len() && i != k ==> is_media_token_char(#[trigger] s[i]);
    assert forall|i: int| 0 <= i < s.len() implies '\0' <= #[trigger] s[i] <= '\u{7f}' && t[i] == ascii_lower(s[i]) by {
        if i != k {
            assert(is_media_token_char(s[i]));
        }
    }
    assert(t[k] == '/');
    assert forall|i: int| 0 <= i < t.len() && i != k implies is_media_token_char(#[trigger] t[i]) by {
        assert(is_media_token_char(s[i]));
    }
    assert(media_type_syntax(t));
    assert(ascii_lowercase(t) =~= t);
    assert(vstd::utf8::is_ascii_chars(s));
    assert forall|i: int| 0 <= i < t.len() implies '\0' <= #[trigger] t[i] <= '\u{7f}' by {
        assert(t[i] == ascii_lower(s[i]));
    }
    lemma_ascii_encode_len(s);
    lemma_ascii_encode_len(t);
}

/// The UTF-8 length of ASCII text is its character count.
pub proof fn lemma_ascii_encode_len(s: Seq<char>)
    requires
        vstd::utf8::is_ascii_chars(s),
    ensures
        utf8_len(s) == s.len(),
{
    vstd::utf8::is_ascii_chars_encode_utf8(s);
}

impl FileMediaType {
    #[verifier::type_invariant]
    spec fn valid(self) -> bool {
        &&& media_type_check(self.0@) is Ok
        &&& ascii_lowercase(self.0@) == self.0@
    }

    /// Validates, lowercases, and owns one concrete `type/subtype` media type
    /// of at most 127 bytes; wildcards and parameters are rejected.
    pub fn new(value: &str) -> (res: Result<Self, ApiDomainError>)
        ensures
            same_outcome(res, media_type_check(value@)),
            res matches Ok(m) ==> m@ == ascii_lowercase(value@),
    {
        if utf8_byte_len(value) > MAX_FILE_MEDIA_TYPE_BYTES {
            return Err(limit_exceeded());
        }
        if !has_media_type_syntax(value) {
            return Err(invalid_argument());
        }
        proof {
            lemma_lowercase_keeps_media_type(value@);
        }
        Ok(FileMediaType(to_ascii_lowercase(value)))
    }

    /// Returns the validated lowercase media type to a trusted file adapter.
    pub fn as_str(&self) -> (res: &str)
        ensures
            res@ == self@,
            media_type_check(res@) is Ok,
            ascii_lowercase(res@) == res@,
    {
        proof {
            use_type_invariant(self);
        }
        self.0.as_str()
    }

    /// Returns the normalized media type's ASCII byte count.
    pub fn encoded_bytes(&self) -> (res: usize)
        ensures
            res == utf8_len(self@),
    {
        utf8_byte_len(self.0.as_str())
    }

    /// Reports whether two media types hold the same text.
    pub fn same_text(&self, other: &FileMediaType) -> (res: bool)
        ensures
            res == (self@ == other@),
    {
        self.0 == other.0
    }
}

/// One checked, non-zero exact file length in bytes.
#[derive(Clone, Copy, Debug, PartialEq, Eq, Structural, Hash)]
pub struct FileByteLength(usize);

impl View for FileByteLength {
    type V = nat;

    closed spec fn view(&self) -> nat {
        self.0 as nat
    }
}

impl FileByteLength {
    #[verifier::type_invariant]
    spec fn valid(self) -> bool {
        1 <= self.0 <= MAX_FILE_BYTES
    }

    /// Validates an exact file length in `1..=512 MiB`.
    pub fn new(value: usize) -> (res: Result<Self, ApiDomainError>)
        ensures
            res is Ok <==> 1 <= value <= MAX_FILE_BYTES,
            res matches Ok(l) ==> l@ == value,
            res matches Err(e) ==> e.code == (if value > MAX_FILE_BYTES {
                ApiDomainErrorCode::LimitExceeded
            } else {
                ApiDomainErrorCode::InvalidArgument
            }),
    {
        if value > MAX_FILE_BYTES {
            return Err(limit_exceeded());
        }
        if value == 0 {
            return Err(invalid_argument());
        }
        Ok(FileByteLength(value))
    }

    /// Returns the validated exact byte length.
    pub fn get(self) -> (res: usize)
        ensures
            res == self@,
            1 <= res <= MAX_FILE_BYTES,
    {
        proof {
            use_type_invariant(&self);
        }
        self.0
    }
}

/// Complete validated metadata required before accepting a file upload.
#[derive(Clone, PartialEq, Eq)]
pub struct FileUploadSpecification {
    display_name: FileDisplayName,
    media_type: FileMediaType,
    byte_length: FileByteLength,
    expected_digest: Option<FileDigest>,
}

/// Abstract metadata of a [`FileUploadSpecification`].
pub struct FileUploadSpecificationView {
    /// Display name.
    pub display_name: Seq<char>,
    /// Normalized media type.
    pub media_type: Seq<char>,
    /// Declared exact byte length.
    pub byte_length: nat,
    /// Optional expected SHA-256 digest.
    pub expected_digest: Option<FileDigest>,
}

impl View for FileUploadSpecification {
    type V = FileUploadSpecificationView;

    closed spec fn view(&self) -> FileUploadSpecificationView {
        FileUploadSpecificationView {
            display_name: self.display_name@,
            media_type: self.media_type@,
            byte_length: self.byte_length@,
            expected_digest: self.expected_digest,
        }
    }
}

impl FileUploadSpecification {
    /// Owns validated upload metadata without changing any component value.
    pub fn new(
        display_name: FileDisplayName,
        media_type: FileMediaType,
        byte_length: FileByteLength,
        expected_digest: Option<FileDigest>,
    ) -> (res: Self)
        ensures
            res@ == (FileUploadSpecificationView {
                display_name: display_name@,
                media_type: media_type@,
                byte_length: byte_length@,
                expected_digest,
            }),
    {
        FileUploadSpecification { display_name, media_type, byte_length, expected_digest }
    }

    /// Returns the validated display name.
    pub fn display_name(&self) -> (res: &FileDisplayName)
        ensures
            res@ == self@.display_name,
    {
        &self.display_name
    }

    /// Returns the validated normalized media type.
    pub fn media_type(&self) -> (res: &FileMediaType)
        ensures
            res@ == self@.media_type,
    {
        &self.media_type
    }

    /// Returns the declared exact byte length.
    pub fn byte_length(&self) -> (res: FileByteLength)
        ensures
            res@ == self@.byte_length,
    {
        self.byte_length
    }

    /// Returns the optional caller-supplied expected SHA-256 digest.
    pub fn expected_digest(&self) -> (res: Option<&FileDigest>)
        ensures
            match res {
                Some(d) => self@.expected_digest == Some(*d),
                None => self@.expected_digest is None,
            },
    {
        match &self.expected_digest {
            Some(d) => Some(d),
            None => None,
        }
    }
}

/// Complete metadata for one file whose bytes were verified by a trusted service.
#[derive(Clone, PartialEq, Eq)]
pub struct FileDescriptor {
    reference: FileReference,
    display_name: FileDisplayName,
    media_type: FileMediaType,
    byte_length: FileByteLength,
    digest: FileDigest,
}

/// Abstract metadata of a [`FileDescriptor`].
pub struct FileDescriptorView {
    /// Service-issued reference.
    pub reference: FileReference,
    /// Display name.
    pub display_name: Seq<char>,
    /// Normalized media type.
    pub media_type: Seq<char>,
    /// Verified exact byte length.
    pub byte_length: nat,
    /// Verified SHA-256 digest.
    pub digest: FileDigest,
}

impl View for FileDescriptor {
    type V = FileDescriptorView;

    closed spec fn view(&self) -> FileDescriptorView {
        FileDescriptorView {
            reference: self.reference,
            display_name: self.display_name@,
            media_type: self.media_type@,
            byte_length: self.byte_length@,
            digest: self.digest,
        }
    }
}

impl FileDescriptor {
    /// Owns one verified file reference and its validated immutable metadata.
    pub fn new(
        reference: FileReference,
        display_name: FileDisplayName,
        media_type: FileMediaType,
        byte_length: FileByteLength,
        digest: FileDigest,
    ) -> (res: Self)
        ensures
            res@ == (FileDescriptorView {
                reference,
                display_name: display_name@,
                media_type: media_type@,
                byte_length: byte_length@,
                digest,
            }),
    {
        FileDescriptor { reference, display_name, media_type, byte_length, digest }
    }

    /// Returns the opaque service-issued file reference.
    pub fn reference(&self) -> (res: &FileReference)
        ensures
            *res == self@.reference,
    {
        &self.reference
    }

    /// Returns the validated display name.
    pub fn display_name(&self) -> (res: &FileDisplayName)
        ensures
            res@ == self@.display_name,
    {
        &self.display_name
    }

    /// Returns the validated normalized media type.
    pub fn media_type(&self) -> (res: &FileMediaType)
        ensures
            res@ == self@.media_type,
    {
        &self.media_type
    }

    /// Returns the verified exact byte length.
    pub fn byte_length(&self) -> (res: FileByteLength)
        ensures
            res@ == self@.byte_length,
    {
        self.byte_length
    }

    /// Returns the verified SHA-256 digest.
    pub fn digest(&self) -> (res: &FileDigest)
        ensures
            *res == self@.digest,
    {
        &self.digest
    }
    /// Reports whether two descriptors carry the same metadata.
    pub fn same_descriptor(&self, other: &FileDescriptor) -> (res: bool)
        ensures
            res == (self@ == other@),
    {
        let same = self.reference.same_reference(&other.reference) && self.display_name.same_text(&other.display_name)
            && self.media_type.same_text(&other.media_type) && self.byte_length.get() == other.byte_length.get()
            && self.digest.same_bytes(&other.digest);
        proof {
            if self.digest.0@ == other.digest.0@ {
                assert(self.digest.0 =~= other.digest.0);
            }
        }
        same
    }
}

} // verus!
