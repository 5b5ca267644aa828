//! Byte-level path manipulation: file names, extensions, the derived WebP
//! output path, and the upload key. Paths are modelled as byte strings with
//! `/` as the directory separator, matching the platform paths the scanner
//! hands in.
use vstd::prelude::*;

verus! {

/// ASCII `/`, the directory separator.
pub const SLASH: u8 = 47;

/// ASCII `.`, the extension separator.
pub const DOT: u8 = 46;

/// ASCII `w`.
pub const LOWER_W: u8 = 119;

/// ASCII `e`.
pub const LOWER_E: u8 = 101;

/// ASCII `b`.
pub const LOWER_B: u8 = 98;

/// ASCII `p`.
pub const LOWER_P: u8 = 112;


/// Index of the last occurrence of `c` in `s`, or -1 when `c` does not occur.
pub open spec fn last_pos(s: Seq<u8>, c: u8) -> int
    decreases s.len(),
{
    if s.len() == 0 {
        -1
    } else if s[s.len() - 1] == c {
        s.len() - 1
    } else {
        last_pos(s.drop_last(), c)
    }
}

/// `last_pos` returns the largest index holding `c`, or -1 when there is none.
pub proof fn lemma_last_pos(s: Seq<u8>, c: u8)
    ensures
        -1 <= last_pos(s, c) < s.len(),
        last_pos(s, c) >= 0 ==> s[last_pos(s, c)] == c,
        forall|j: int| last_pos(s, c) < j < s.len() ==> s[j] != c,
    decreases s.len(),
{
    if s.len() > 0 {
        if s[s.len() - 1] == c {
        } else {
            lemma_last_pos(s.drop_last(), c);
            assert(forall|j: int| 0 <= j < s.len() - 1 ==> s.drop_last()[j] == s[j]);
        }
    }
}

/// Index where the file name of `p` starts: one past the last `/`.
pub open spec fn file_name_start(p: Seq<u8>) -> int {
    last_pos(p, SLASH) + 1
}

/// The file name of `p`: everything after the last `/`.
pub open spec fn spec_file_name(p: Seq<u8>) -> Seq<u8> {
    p.subrange(file_name_start(p), p.len() as int)
}

/// A file name has an extension when it holds a `.` that is not its first
/// byte; the extension is what follows the last such `.`.
pub open spec fn spec_has_extension(name: Seq<u8>) -> bool {
    last_pos(name, DOT) > 0
}

/// The extension of a file name, meaningful when `spec_has_extension` holds.
pub open spec fn spec_extension(name: Seq<u8>) -> Seq<u8> {
    name.subrange(last_pos(name, DOT) + 1, name.len() as int)
}

/// The stem of a file name: what precedes the extension's `.`, or the whole
/// name when there is no extension.
pub open spec fn spec_stem(name: Seq<u8>) -> Seq<u8> {
    if spec_has_extension(name) {
        name.subrange(0, last_pos(name, DOT))
    } else {
        name
    }
}

/// The canonical extension of the target format.
pub open spec fn webp_ext() -> Seq<u8> {
    seq![LOWER_W, LOWER_E, LOWER_B, LOWER_P]
}

/// The converted artifact's path: the source path with its extension
/// replaced by `webp` (or with `.webp` appended when it has none).
pub open spec fn spec_output_path(p: Seq<u8>) -> Seq<u8> {
    p.subrange(0, file_name_start(p)) + spec_stem(spec_file_name(p)) + seq![DOT] + webp_ext()
}

/// The key an artifact is uploaded under: the stem of the source file name
/// with the target extension. Directory structure is flattened by design.
pub open spec fn spec_upload_key(p: Seq<u8>) -> Seq<u8> {
    spec_stem(spec_file_name(p)) + seq![DOT] + webp_ext()
}

/// Position of the last occurrence of `c` in `v`, if any.
pub fn find_last(v: &Vec<u8>, c: u8) -> (r: Option<usize>)
    ensures
        r matches Some(i) ==> i < v@.len() && last_pos(v@, c) == i as int,
        r is None ==> last_pos(v@, c) == -1,
{
    proof {
        lemma_last_pos(v@, c);
    }
    let mut i: usize = v.len();
    while i > 0
        invariant
            i <= v@.len(),
            forall|j: int| i <= j < v@.len() ==> v@[j] != c,
        decreases i,
    {
        i = i - 1;
        if v[i] == c {
            proof {
                lemma_last_pos(v@, c);
                if last_pos(v@, c) > i as int {
                    assert(v@[last_pos(v@, c)] == c);
                    assert(false);
                }
            }
            return Some(i);
        }
    }
    None
}

/// A copy of `v[from..to]`.
pub fn copy_range(v: &Vec<u8>, from: usize, to: usize) -> (r: Vec<u8>)
    requires
        from <= to <= v@.len(),
    ensures
        r@ == v@.subrange(from as int, to as int),
{
    let mut r: Vec<u8> = Vec::new();
    let mut i: usize = from;
    while i < to
        invariant
            from <= i <= to <= v@.len(),
            r@ == v@.subrange(from as int, i as int),
        decreases to - i,
    {
        r.push(v[i]);
        proof {
            assert(r@ =~= v@.subrange(from as int, i + 1 as int));
        }
        i = i + 1;
    }
    r
}

/// A copy of the whole of `v`.
pub fn clone_bytes(v: &Vec<u8>) -> (r: Vec<u8>)
    ensures
        r@ == v@,
{
    let r = copy_range(v, 0, v.len());
    proof {
        assert(v@.subrange(0, v@.len() as int) =~= v@);
    }
    r
}

/// The file name of `path`: the bytes after the last `/`.
pub fn file_name(path: &Vec<u8>) -> (r: Vec<u8>)
    ensures
        r@ == spec_file_name(path@),
{
    let n: usize = path.len();
    let start: usize = match find_last(path, SLASH) {
        Some(i) => i + 1,
        None => 0,
    };
    copy_range(path, start, n)
}

/// Length of the stem within the file name `name`.
fn stem_len_of(name: &Vec<u8>) -> (r: usize)
    ensures
        r <= name@.len(),
        spec_stem(name@) == name@.subrange(0, r as int),
{
    let r: usize = match find_last(name, DOT) {
        Some(j) => {
            if j > 0 {
                j
            } else {
                name.len()
            }
        },
        None => name.len(),
    };
    proof {
        if !spec_has_extension(name@) {
            assert(name@.subrange(0, name@.len() as int) =~= name@);
        }
    }
    r
}

/// The converted artifact's path for a source at `path`.
pub fn output_path(path: &Vec<u8>) -> (r: Vec<u8>)
    ensures
        r@ == spec_output_path(path@),
{
    let name = file_name(path);
    proof {
        lemma_last_pos(path@, SLASH);
    }
    let start: usize = path.len() - name.len();
    proof {
        assert(start as int == file_name_start(path@));
    }
    let stem_len = stem_len_of(&name);
    let mut r = copy_range(path, 0, start + stem_len);
    r.push(DOT);
    r.push(LOWER_W);
    r.push(LOWER_E);
    r.push(LOWER_B);
    r.push(LOWER_P);
    proof {
        assert(forall|k: int|
            0 <= k < stem_len ==> path@.subrange(0, start + stem_len as int)[start + k]
                == spec_stem(spec_file_name(path@))[k]);
        assert(r@ =~= spec_output_path(path@));
    }
    r
}

/// The upload key for a source at `path`.
pub fn upload_key(path: &Vec<u8>) -> (r: Vec<u8>)
    ensures
        r@ == spec_upload_key(path@),
{
    let name = file_name(path);
    let stem_len = stem_len_of(&name);
    let mut r = copy_range(&name, 0, stem_len);
    r.push(DOT);
    r.push(LOWER_W);
    r.push(LOWER_E);
    r.push(LOWER_B);
    r.push(LOWER_P);
    proof {
        assert(r@ =~= spec_upload_key(path@));
    }
    r
}

/// The upload key of a source equals the file name of its converted
/// artifact's path: the key is exactly what the artifact is called on disk.
#[verifier::rlimit(50)]
pub proof fn lemma_key_is_output_file_name(p: Seq<u8>)
    ensures
        spec_file_name(spec_output_path(p)) == spec_upload_key(p),
{
    let d = file_name_start(p);
    let key = spec_upload_key(p);
    let out = spec_output_path(p);
    lemma_last_pos(p, SLASH);
    lemma_last_pos(spec_file_name(p), DOT);
    assert(key.len() == spec_stem(spec_file_name(p)).len() + 5);
    assert(out.len() == d + key.len());
    assert(out =~= p.subrange(0, d) + key);
    // No byte of the key is a separator: the stem's bytes come from the file
    // name, which sits after the last separator of `p`.
    assert forall|k: int| 0 <= k < key.len() implies key[k] != SLASH by {
        let stem = spec_stem(spec_file_name(p));
        if k < stem.len() {
            assert(stem[k] == p[d + k]);
        }
    }
    lemma_last_pos(out, SLASH);
    if d > 0 {
        assert(out[d - 1] == SLASH);
        assert(forall|j: int| d <= j < out.len() ==> out[j] == key[j - d]);
        assert(last_pos(out, SLASH) == d - 1);
    } else {
        assert(forall|j: int| 0 <= j < out.len() ==> out[j] == key[j]);
        assert(last_pos(out, SLASH) == -1);
    }
    assert(spec_file_name(out) =~= key);
}

/// Two sources map to the same upload key exactly when their file-name stems
/// are equal: the key keeps the stem and nothing else of the path.
pub proof fn lemma_keys_equal_iff_stems_equal(p1: Seq<u8>, p2: Seq<u8>)
    ensures
        spec_upload_key(p1) == spec_upload_key(p2) <==> spec_stem(spec_file_name(p1))
            == spec_stem(spec_file_name(p2)),
{
    let s1 = spec_stem(spec_file_name(p1));
    let s2 = spec_stem(spec_file_name(p2));
    let k1 = spec_upload_key(p1);
    let k2 = spec_upload_key(p2);
    if k1 == k2 {
        assert(s1 =~= k1.subrange(0, k1.len() - 5));
        assert(s2 =~= k2.subrange(0, k2.len() - 5));
    }
    if s1 == s2 {
        assert(k1 =~= k2);
    }
}

} // verus!
