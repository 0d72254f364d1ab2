//! Where a screenshot is written.
//!
//! A session that is kept open writes many screenshots next to one output
//! path: the number of the screenshot goes between the stem of the output's
//! file name and its extension.

use std::path::Path;
use std::path::PathBuf;
use vstd::prelude::*;
use vstd::utf8::*;

use crate::decimal::append_decimal;
use crate::decimal::are_digits_of;
use crate::decimal::decimal;
use crate::decimal::lemma_decimal_digits;
use crate::decimal::lemma_decimal_has_digits;
use crate::decimal::lemma_decimal_injective;
use crate::decimal::lemma_digits_unique;

verus! {

/// The borrowed path type of the standard library.
#[verifier::external_type_specification]
#[verifier::external_body]
pub struct ExPath(std::path::Path);

/// The owned path type of the standard library.
#[verifier::external_type_specification]
#[verifier::external_body]
pub struct ExPathBuf(std::path::PathBuf);

/// The bytes that a path holds, in the encoding of `OsStr::as_encoded_bytes`:
/// UTF-8, extended by what the platform allows beyond Unicode.
pub uninterp spec fn path_bytes(path: &Path) -> Seq<u8>;

/// The bytes that an owned path holds, in the encoding of [`path_bytes`].
pub uninterp spec fn path_buf_bytes(path: &PathBuf) -> Seq<u8>;

/// What `Path::file_name` gives for the path with these bytes, by the path
/// rules of the platform that the library is built for.
pub uninterp spec fn file_name_of(path: Seq<u8>) -> Option<Seq<u8>>;

/// What `Path::parent` gives for the path with these bytes, by the path rules
/// of the platform that the library is built for.
pub uninterp spec fn parent_of(path: Seq<u8>) -> Option<Seq<u8>>;

/// What `Path::join` makes of a directory and a path to adjoin to it, by the
/// path rules of the platform that the library is built for.
pub uninterp spec fn joined(directory: Seq<u8>, adjoined: Seq<u8>) -> Seq<u8>;

/// The position of the last dot in a file name.
pub open spec fn last_dot(name: Seq<u8>) -> Option<int>
    decreases name.len(),
{
    if name.len() == 0 {
        None
    } else if name.last() == 0x2e {
        Some(name.len() - 1)
    } else {
        last_dot(name.drop_last())
    }
}

/// The stem of a file name: what stands before its last dot, or all of it
/// where there is no dot but perhaps a leading one.
pub open spec fn stem_part(name: Seq<u8>) -> Seq<u8> {
    match last_dot(name) {
        Some(i) => if i > 0 {
            name.take(i)
        } else {
            name
        },
        None => name,
    }
}

/// The extension of a file name: what stands behind its last dot, unless that
/// dot leads the name.
pub open spec fn extension_part(name: Seq<u8>) -> Option<Seq<u8>> {
    match last_dot(name) {
        Some(i) => if i > 0 {
            Some(name.skip(i + 1))
        } else {
            None
        },
        None => None,
    }
}

/// The text that these bytes encode, where they encode Unicode.
pub open spec fn text_of(bytes: Seq<u8>) -> Option<Seq<char>> {
    if valid_utf8(bytes) {
        Some(decode_utf8(bytes))
    } else {
        None
    }
}

/// The stem of a path's file name as text, empty where there is none.
pub open spec fn stem_text(path: Seq<u8>) -> Seq<char> {
    match file_name_of(path) {
        Some(name) => match text_of(stem_part(name)) {
            Some(text) => text,
            None => Seq::empty(),
        },
        None => Seq::empty(),
    }
}

/// The extension of a path's file name as text, where there is one.
pub open spec fn extension_text(path: Seq<u8>) -> Option<Seq<char>> {
    match file_name_of(path) {
        Some(name) => match extension_part(name) {
            Some(extension) => text_of(extension),
            None => None,
        },
        None => None,
    }
}

/// The directory of a path, the empty path where there is none.
pub open spec fn directory_of(path: Seq<u8>) -> Seq<u8> {
    match parent_of(path) {
        Some(parent) => parent,
        None => Seq::empty(),
    }
}

/// The file name of screenshot number `n`.
pub open spec fn numbered_name(stem: Seq<char>, n: nat, extension: Option<Seq<char>>) -> Seq<char> {
    let numbered = stem + seq!['_'] + decimal(n);
    match extension {
        Some(extension) => numbered + seq!['.'] + extension,
        None => numbered,
    }
}

/// The path of screenshot number `n` for the output path `base`.
pub open spec fn numbered_path(base: Seq<u8>, n: nat) -> Seq<u8> {
    joined(directory_of(base), numbered_name_bytes(base, n))
}

/// A path that starts with two separators, of whatever platform. Some platforms
/// take what follows them for the name of a server and its share.
pub open spec fn starts_with_two_separators(path: Seq<u8>) -> bool {
    &&& path.len() >= 2
    &&& path[0] == 0x2f || path[0] == 0x5c
    &&& path[1] == 0x2f || path[1] == 0x5c
}

/// Bytes without the separators of any platform and without a colon, which some
/// platforms put behind a drive.
pub open spec fn has_no_separator(name: Seq<u8>) -> bool {
    forall|i: int|
        0 <= i < name.len() ==> #[trigger] name[i] != 0x2f && name[i] != 0x5c && name[i] != 0x3a
}

/// A name that is a file name on every platform: it is not empty, has no
/// separator, and is not one of the two names that stand for a directory.
pub open spec fn is_plain_name(name: Seq<u8>) -> bool {
    &&& name.len() > 0
    &&& has_no_separator(name)
    &&& name != seq![0x2eu8]
    &&& name != seq![0x2eu8, 0x2eu8]
}

/// A path whose last bytes are these.
pub open spec fn ends_with(path: Seq<u8>, name: Seq<u8>) -> bool {
    &&& path.len() >= name.len()
    &&& path.skip(path.len() - name.len()) == name
}

/// A path that has no file name, or one without a separator of any platform.
pub open spec fn has_plain_file_name(path: Seq<u8>) -> bool {
    file_name_of(path) matches Some(name) ==> has_no_separator(name)
}

/// The bytes of the file name of screenshot number `n` for this output path.
pub open spec fn numbered_name_bytes(base: Seq<u8>, n: nat) -> Seq<u8> {
    encode_utf8(numbered_name(stem_text(base), n, extension_text(base)))
}

/// What [`numbered_output_path`] owes: the numbered path, which ends in the
/// numbered name and has it for its file name.
pub open spec fn is_numbered_path(path: Seq<u8>, base: Seq<u8>, n: nat) -> bool {
    let name = numbered_name_bytes(base, n);
    &&& path == numbered_path(base, n)
    &&& is_plain_name(name) ==> ends_with(path, name)
    &&& is_plain_name(name) && !starts_with_two_separators(directory_of(base)) ==> file_name_of(
        path,
    ) == Some(name)
}

/// `Path::file_stem`, with the stem given as a path: nothing where the path
/// has no file name, else the name up to its last dot; the whole name where
/// it has no dot, or no dot but a leading one.
#[verifier::external_body]
fn file_stem(path: &Path) -> (stem: Option<&Path>)
    ensures
        match stem {
            Some(stem) => file_name_of(path_bytes(path)) matches Some(name) && path_bytes(stem)
                == stem_part(name),
            None => file_name_of(path_bytes(path)) is None,
        },
{
    path.file_stem().map(|stem| Path::new(stem))
}

/// `Path::extension`, with the extension given as a path: what stands behind
/// the last dot of the file name, and nothing where the path has no file name
/// or that name has no dot but perhaps a leading one.
#[verifier::external_body]
fn extension(path: &Path) -> (extension: Option<&Path>)
    ensures
        match extension {
            Some(extension) => file_name_of(path_bytes(path)) matches Some(name) && Some(
                path_bytes(extension),
            ) == extension_part(name),
            None => file_name_of(path_bytes(path)) matches Some(name) ==> extension_part(name) is None,
        },
{
    path.extension().map(|extension| Path::new(extension))
}

/// `Path::parent`: the path without its final component, where it has a
/// parent.
pub assume_specification[ std::path::Path::parent ](path: &Path) -> (parent: Option<&Path>)
    ensures
        match parent {
            Some(parent) => parent_of(path_bytes(path)) == Some(path_bytes(parent)),
            None => parent_of(path_bytes(path)) is None,
        },
;

/// `Path::to_str`: the path as text, where it is valid Unicode.
pub assume_specification[ std::path::Path::to_str ](path: &Path) -> (text: Option<&str>)
    ensures
        match text {
            Some(text) => text_of(path_bytes(path)) == Some(text@),
            None => text_of(path_bytes(path)) is None,
        },
;

/// `Path::to_path_buf`: an owned copy of the path.
pub assume_specification[ std::path::Path::to_path_buf ](path: &Path) -> (owned: PathBuf)
    ensures
        path_buf_bytes(&owned) == path_bytes(path),
;

/// `Path::new` on text: the path that is spelled like the text.
#[verifier::external_body]
fn path_from_text(text: &str) -> (path: &Path)
    ensures
        path_bytes(path) == encode_utf8(text@),
{
    Path::new(text)
}

/// `Path::join` with text: the directory with the text adjoined as a path. A
/// text that is a plain name extends the directory, so the result ends in it,
/// and it is the final component of the result. Nothing is said of the final
/// component for a directory that starts with two separators, where some
/// platforms read the name of a share out of the result.
#[verifier::external_body]
fn join_text(directory: &Path, adjoined: &str) -> (path: PathBuf)
    ensures
        path_buf_bytes(&path) == joined(path_bytes(directory), encode_utf8(adjoined@)),
        is_plain_name(encode_utf8(adjoined@)) ==> ends_with(
            path_buf_bytes(&path),
            encode_utf8(adjoined@),
        ),
        is_plain_name(encode_utf8(adjoined@)) && !starts_with_two_separators(path_bytes(directory))
            ==> file_name_of(path_buf_bytes(&path)) == Some(encode_utf8(adjoined@)),
{
    directory.join(adjoined)
}

/// The file name of screenshot number `n`: the stem, an underscore, the number
/// and, where there is one, a dot and the extension.
pub fn numbered_file_name(stem: &str, n: u64, extension: Option<&str>) -> (name: String)
    ensures
        name@ == numbered_name(
            stem@,
            n as nat,
            match extension {
                Some(extension) => Some(extension@),
                None => None,
            },
        ),
{
    proof {
        reveal_strlit("_");
        reveal_strlit(".");
    }
    let mut name = stem.to_owned();
    name.append("_");
    append_decimal(&mut name, n);
    if let Some(extension) = extension {
        name.append(".");
        name.append(extension);
    }
    assert("_"@ =~= seq!['_']);
    assert("."@ =~= seq!['.']);
    name
}

/// The path of screenshot number `n` for the output path `base`: the same
/// directory, the stem of `base` followed by the number, and its extension. A
/// stem that is not Unicode counts as empty, an extension that is not Unicode
/// as absent.
pub fn numbered_output_path(base: &Path, n: u64) -> (path: PathBuf)
    ensures
        is_numbered_path(path_buf_bytes(&path), path_bytes(base), n as nat),
{
    let stem: Option<&str> = match file_stem(base) {
        Some(stem) => stem.to_str(),
        None => None,
    };
    let extension: Option<&str> = match extension(base) {
        Some(extension) => extension.to_str(),
        None => None,
    };
    let parent = match base.parent() {
        Some(parent) => parent,
        None => path_from_text(""),
    };
    proof {
        reveal_strlit("");
        assert(""@ =~= Seq::<char>::empty());
    }
    let stem = match stem {
        Some(stem) => stem,
        None => "",
    };
    join_text(parent, &numbered_file_name(stem, n, extension))
}

/// UTF-8 encodes a text piece by piece.
proof fn lemma_encode_concat(a: Seq<char>, b: Seq<char>)
    ensures
        encode_utf8(a + b) == encode_utf8(a) + encode_utf8(b),
    decreases a.len(),
{
    if a.len() == 0 {
        assert(a + b =~= b);
        assert(encode_utf8(a) + encode_utf8(b) =~= encode_utf8(b));
    } else {
        assert((a + b).drop_first() =~= a.drop_first() + b);
        lemma_encode_concat(a.drop_first(), b);
        assert(encode_utf8(a + b) =~= encode_utf8(a) + encode_utf8(b));
    }
}

/// The number in a file name, as it is encoded: an underscore and digits.
spec fn number_bytes(n: nat) -> Seq<u8> {
    encode_utf8(seq!['_'] + decimal(n))
}

/// An underscore, then at least one digit.
proof fn lemma_number_bytes(n: nat)
    ensures
        number_bytes(n).len() >= 2,
        number_bytes(n)[0] == 0x5f,
        forall|i: int| 1 <= i < number_bytes(n).len() ==> 0x30 <= #[trigger] number_bytes(n)[i] <= 0x39,
{
    let text = seq!['_'] + decimal(n);
    lemma_decimal_digits(n);
    assert forall|i: int| 0 <= i < text.len() implies '\0' <= #[trigger] text[i] <= '\u{7f}' by {
        if i > 0 {
            assert(text[i] == decimal(n)[i - 1]);
        }
    }
    is_ascii_chars_encode_utf8(text);
    assert(decimal(n).len() > 0);
    assert forall|i: int| 1 <= i < number_bytes(n).len() implies 0x30 <= #[trigger] number_bytes(n)[i]
        <= 0x39 by {
        assert(text[i] == decimal(n)[i - 1]);
    }
}

/// What follows the number in a file name, as it is encoded.
spec fn tail_bytes(extension: Option<Seq<char>>) -> Seq<u8> {
    match extension {
        Some(extension) => seq![0x2eu8] + encode_utf8(extension),
        None => Seq::empty(),
    }
}

/// A numbered file name is encoded piece by piece.
proof fn lemma_encode_numbered_name(stem: Seq<char>, n: nat, extension: Option<Seq<char>>)
    ensures
        encode_utf8(numbered_name(stem, n, extension)) == encode_utf8(stem) + number_bytes(n)
            + tail_bytes(extension),
{
    let number = seq!['_'] + decimal(n);
    let head = stem + seq!['_'] + decimal(n);
    assert(stem + number =~= head);
    lemma_encode_concat(stem, number);
    match extension {
        Some(extension) => {
            assert(is_ascii_chars(seq!['.']));
            is_ascii_chars_encode_utf8(seq!['.']);
            assert(encode_utf8(seq!['.']) =~= seq![0x2eu8]);
            lemma_encode_concat(seq!['.'], extension);
            lemma_encode_concat(head, seq!['.'] + extension);
            assert(head + seq!['.'] + extension =~= head + (seq!['.'] + extension));
        },
        None => {
            assert(encode_utf8(head) =~= encode_utf8(head) + tail_bytes(extension));
        },
    }
}

/// What [`last_dot`] finds is a dot with no dot behind it, and it finds one
/// wherever there is one.
proof fn lemma_last_dot(name: Seq<u8>)
    ensures
        match last_dot(name) {
            Some(i) => 0 <= i < name.len() && name[i] == 0x2e && forall|j: int|
                i < j < name.len() ==> #[trigger] name[j] != 0x2e,
            None => forall|j: int| 0 <= j < name.len() ==> #[trigger] name[j] != 0x2e,
        },
    decreases name.len(),
{
    if name.len() > 0 && name.last() != 0x2e {
        lemma_last_dot(name.drop_last());
        assert forall|j: int| 0 <= j < name.len() - 1 implies #[trigger] name[j]
            == name.drop_last()[j] by {}
    }
}

/// There is one last dot.
proof fn lemma_last_dot_is(name: Seq<u8>, i: int)
    requires
        0 <= i < name.len(),
        name[i] == 0x2e,
        forall|j: int| i < j < name.len() ==> #[trigger] name[j] != 0x2e,
    ensures
        last_dot(name) == Some(i),
{
    lemma_last_dot(name);
}

/// Screenshots with different numbers have different file names.
pub proof fn law_numbered_names_differ(
    stem: Seq<char>,
    extension: Option<Seq<char>>,
    a: nat,
    b: nat,
)
    requires
        a != b,
    ensures
        numbered_name(stem, a, extension) != numbered_name(stem, b, extension),
        encode_utf8(numbered_name(stem, a, extension)) != encode_utf8(
            numbered_name(stem, b, extension),
        ),
{
    let left = numbered_name(stem, a, extension);
    let right = numbered_name(stem, b, extension);
    let tail: nat = match extension {
        Some(extension) => extension.len() + 1,
        None => 0,
    };
    if left == right {
        let from = stem.len() + 1;
        assert(decimal(a) =~= left.subrange(from as int, left.len() - tail));
        assert(decimal(b) =~= right.subrange(from as int, right.len() - tail));
        lemma_decimal_injective(a, b);
    }
    encode_utf8_decode_utf8(left);
    encode_utf8_decode_utf8(right);
}

/// The text of some bytes has no separator where the bytes have none.
proof fn lemma_text_has_no_separator(bytes: Seq<u8>)
    requires
        has_no_separator(bytes),
    ensures
        text_of(bytes) matches Some(text) ==> has_no_separator(encode_utf8(text)),
{
    if valid_utf8(bytes) {
        decode_utf8_encode_utf8(bytes);
    }
}

/// The numbered name for an output path without separators in its file name is
/// a file name on every platform.
pub proof fn law_numbered_name_is_plain(base: Seq<u8>, n: nat)
    requires
        has_plain_file_name(base),
    ensures
        is_plain_name(numbered_name_bytes(base, n)),
{
    let stem = encode_utf8(stem_text(base));
    let tail = tail_bytes(extension_text(base));
    let name = numbered_name_bytes(base, n);
    lemma_encode_numbered_name(stem_text(base), n, extension_text(base));
    lemma_number_bytes(n);
    assert(encode_utf8(Seq::<char>::empty()) =~= Seq::empty());
    if let Some(whole) = file_name_of(base) {
        lemma_last_dot(whole);
        assert(has_no_separator(stem_part(whole)));
        lemma_text_has_no_separator(stem_part(whole));
        if let Some(extension) = extension_part(whole) {
            assert(has_no_separator(extension));
            lemma_text_has_no_separator(extension);
        }
    }
    assert(has_no_separator(stem));
    assert(has_no_separator(tail));
    assert forall|i: int| 0 <= i < name.len() implies #[trigger] name[i] != 0x2f && name[i] != 0x5c
        && name[i] != 0x3a by {
        let number = number_bytes(n);
        if i < stem.len() {
            assert(name[i] == stem[i]);
        } else if i < stem.len() + number.len() {
            assert(name[i] == number[i - stem.len()]);
        } else {
            assert(name[i] == tail[i - stem.len() - number.len()]);
        }
    }
    // The underscore is in neither of the names that stand for a directory.
    let underscore = stem.len() as int;
    assert(name[underscore] == number_bytes(n)[0]);
    assert(name.len() >= 2);
    if name == seq![0x2eu8, 0x2eu8] {
        assert(underscore == 0 || underscore == 1);
        assert(name[underscore] == 0x2e);
    }
}

/// A path does not end in two numbered names with numbers of different lengths.
proof fn lemma_one_ending(path: Seq<u8>, stem: Seq<u8>, tail: Seq<u8>, a: nat, b: nat)
    requires
        ends_with(path, stem + number_bytes(a) + tail),
        ends_with(path, stem + number_bytes(b) + tail),
    ensures
        number_bytes(a).len() >= number_bytes(b).len(),
{
    lemma_number_bytes(a);
    lemma_number_bytes(b);
    let left = stem + number_bytes(a) + tail;
    let right = stem + number_bytes(b) + tail;
    if number_bytes(a).len() < number_bytes(b).len() {
        // Where the shorter name has its underscore, the longer one has a digit.
        let back = number_bytes(a).len() + tail.len();
        let at = path.len() - back;
        let digit = number_bytes(b).len() - number_bytes(a).len();
        assert(left[left.len() - back] == number_bytes(a)[0]);
        assert(right[right.len() - back] == number_bytes(b)[digit]);
        assert(path[at] == path.skip(path.len() - left.len())[left.len() - back]);
        assert(path[at] == path.skip(path.len() - right.len())[right.len() - back]);
    }
}

/// Screenshots with different numbers go to different paths, where the file name
/// of the output path has no separator.
pub proof fn law_numbered_paths_differ(
    base: Seq<u8>,
    left: Seq<u8>,
    right: Seq<u8>,
    a: nat,
    b: nat,
)
    requires
        a != b,
        has_plain_file_name(base),
        is_numbered_path(left, base, a),
        is_numbered_path(right, base, b),
    ensures
        left != right,
{
    let stem = encode_utf8(stem_text(base));
    let tail = tail_bytes(extension_text(base));
    law_numbered_name_is_plain(base, a);
    law_numbered_name_is_plain(base, b);
    lemma_encode_numbered_name(stem_text(base), a, extension_text(base));
    lemma_encode_numbered_name(stem_text(base), b, extension_text(base));
    law_numbered_names_differ(stem_text(base), extension_text(base), a, b);
    if left == right {
        lemma_one_ending(left, stem, tail, a, b);
        lemma_one_ending(left, stem, tail, b, a);
    }
}

/// Where the file name of the output path is Unicode, a numbered screenshot
/// has the extension of the output path, and never the file name of the output
/// path itself.
pub proof fn law_numbered_name_keeps_extension(base: Seq<u8>, name: Seq<u8>, n: nat)
    requires
        file_name_of(base) == Some(name),
        valid_utf8(stem_part(name)),
        extension_part(name) matches Some(extension) ==> valid_utf8(extension),
    ensures
        extension_part(numbered_name_bytes(base, n)) == extension_part(name),
        numbered_name_bytes(base, n) != name,
{
    let stem = stem_part(name);
    let number = number_bytes(n);
    let numbered = numbered_name_bytes(base, n);
    decode_utf8_encode_utf8(stem);
    lemma_number_bytes(n);
    lemma_encode_numbered_name(stem_text(base), n, extension_text(base));
    lemma_last_dot(name);
    match extension_part(name) {
        Some(extension) => {
            decode_utf8_encode_utf8(extension);
            assert(numbered == stem + number + (seq![0x2eu8] + extension));
            let dot = (stem + number).len() as int;
            lemma_last_dot_is(numbered, dot);
            assert(numbered.skip(dot + 1) =~= extension);
        },
        None => {
            assert(stem =~= name);
            assert(numbered =~= name + number);
            if last_dot(name) is Some {
                lemma_last_dot_is(numbered, 0);
            } else {
                lemma_last_dot(numbered);
            }
        },
    }
}

/// A numbered file name is the stem, an underscore, the digits of the number
/// and, where there is an extension, a dot and the extension.
pub proof fn law_numbered_file_name(
    stem: &str,
    n: u64,
    extension: Option<&str>,
    name: String,
    digits: Seq<char>,
)
    requires
        call_ensures(numbered_file_name, (stem, n, extension), name),
        are_digits_of(digits, n as nat),
    ensures
        extension is None ==> name@ == stem@ + seq!['_'] + digits,
        extension matches Some(extension) ==> name@ == stem@ + seq!['_'] + digits + seq!['.']
            + extension@,
{
    lemma_decimal_has_digits(n as nat);
    lemma_digits_unique(digits, decimal(n as nat), n as nat);
}

/// The stem and the extension of a file name that is made of two pieces with a
/// dot between them, where the first piece is not empty and the second has no
/// dot.
proof fn lemma_name_with_dot(before: Seq<u8>, behind: Seq<u8>)
    requires
        before.len() > 0,
        !behind.contains(0x2eu8),
    ensures
        stem_part(before + seq![0x2eu8] + behind) == before,
        extension_part(before + seq![0x2eu8] + behind) == Some(behind),
{
    let name = before + seq![0x2eu8] + behind;
    let dot = before.len() as int;
    assert forall|j: int| dot < j < name.len() implies #[trigger] name[j] != 0x2e by {
        assert(name[j] == behind[j - dot - 1]);
        assert(behind.contains(behind[j - dot - 1]));
    }
    lemma_last_dot_is(name, dot);
    assert(name.take(dot) =~= before);
    assert(name.skip(dot + 1) =~= behind);
}

/// A numbered screenshot goes to the directory of the output path, which is its
/// parent whatever that is, and the empty path where it has none.
pub proof fn law_numbered_path_stays_in_directory(
    base: &Path,
    n: u64,
    path: PathBuf,
    directory: Seq<u8>,
)
    requires
        call_ensures(numbered_output_path, (base, n), path),
        parent_of(path_bytes(base)) == Some(directory) || (parent_of(path_bytes(base)) is None
            && directory.len() == 0),
    ensures
        path_buf_bytes(&path) == joined(directory, numbered_name_bytes(path_bytes(base), n as nat)),
{
    assert(directory.len() == 0 ==> directory =~= Seq::empty());
}

/// An output path whose file name has an extension: the number goes between the
/// stem and the last dot. A stem that is not Unicode is dropped, and so is an
/// extension that is not.
pub proof fn law_number_goes_before_extension(
    base: &Path,
    n: u64,
    path: PathBuf,
    directory: Seq<u8>,
    stem: Seq<u8>,
    extension: Seq<u8>,
    digits: Seq<char>,
)
    requires
        call_ensures(numbered_output_path, (base, n), path),
        parent_of(path_bytes(base)) == Some(directory) || (parent_of(path_bytes(base)) is None
            && directory.len() == 0),
        file_name_of(path_bytes(base)) == Some(stem + seq![0x2eu8] + extension),
        stem.len() > 0,
        !extension.contains(0x2eu8),
        are_digits_of(digits, n as nat),
    ensures
        ({
            let kept_stem = if valid_utf8(stem) {
                stem
            } else {
                Seq::empty()
            };
            let kept_extension = if valid_utf8(extension) {
                seq![0x2eu8] + extension
            } else {
                Seq::empty()
            };
            path_buf_bytes(&path) == joined(
                directory,
                kept_stem + encode_utf8(seq!['_'] + digits) + kept_extension,
            )
        }),
{
    let bytes = path_bytes(base);
    law_numbered_path_stays_in_directory(base, n, path, directory);
    lemma_decimal_has_digits(n as nat);
    lemma_digits_unique(digits, decimal(n as nat), n as nat);
    lemma_name_with_dot(stem, extension);
    lemma_encode_numbered_name(stem_text(bytes), n as nat, extension_text(bytes));
    assert(encode_utf8(Seq::<char>::empty()) =~= Seq::empty());
    if valid_utf8(stem) {
        decode_utf8_encode_utf8(stem);
    }
    if valid_utf8(extension) {
        decode_utf8_encode_utf8(extension);
    }
}

/// An output path whose file name has no extension, because it has no dot or
/// only a leading one: the number goes behind the name. A name that is not
/// Unicode is dropped.
pub proof fn law_number_goes_behind_name(
    base: &Path,
    n: u64,
    path: PathBuf,
    directory: Seq<u8>,
    name: Seq<u8>,
    digits: Seq<char>,
)
    requires
        call_ensures(numbered_output_path, (base, n), path),
        parent_of(path_bytes(base)) == Some(directory) || (parent_of(path_bytes(base)) is None
            && directory.len() == 0),
        file_name_of(path_bytes(base)) == Some(name),
        forall|i: int| 0 < i < name.len() ==> #[trigger] name[i] != 0x2e,
        are_digits_of(digits, n as nat),
    ensures
        path_buf_bytes(&path) == joined(
            directory,
            if valid_utf8(name) {
                name + encode_utf8(seq!['_'] + digits)
            } else {
                encode_utf8(seq!['_'] + digits)
            },
        ),
{
    let bytes = path_bytes(base);
    law_numbered_path_stays_in_directory(base, n, path, directory);
    lemma_decimal_has_digits(n as nat);
    lemma_digits_unique(digits, decimal(n as nat), n as nat);
    lemma_last_dot(name);
    lemma_encode_numbered_name(stem_text(bytes), n as nat, extension_text(bytes));
    assert(encode_utf8(Seq::<char>::empty()) =~= Seq::empty());
    if valid_utf8(name) {
        decode_utf8_encode_utf8(name);
        assert(name + number_bytes(n as nat) + tail_bytes(None) =~= name + number_bytes(n as nat));
    } else {
        assert(Seq::<u8>::empty() + number_bytes(n as nat) + tail_bytes(None) =~= number_bytes(
            n as nat,
        ));
    }
}

/// An output path without a file name: the numbered name is the underscore and
/// the number alone.
pub proof fn law_number_without_name(
    base: &Path,
    n: u64,
    path: PathBuf,
    directory: Seq<u8>,
    digits: Seq<char>,
)
    requires
        call_ensures(numbered_output_path, (base, n), path),
        parent_of(path_bytes(base)) == Some(directory) || (parent_of(path_bytes(base)) is None
            && directory.len() == 0),
        file_name_of(path_bytes(base)) is None,
        are_digits_of(digits, n as nat),
    ensures
        path_buf_bytes(&path) == joined(directory, encode_utf8(seq!['_'] + digits)),
{
    law_numbered_path_stays_in_directory(base, n, path, directory);
    lemma_decimal_has_digits(n as nat);
    lemma_digits_unique(digits, decimal(n as nat), n as nat);
    assert(Seq::<char>::empty() + seq!['_'] + digits =~= seq!['_'] + digits);
}

} // verus!
