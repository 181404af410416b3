//! Persistent-storage volumes: the per-instance host data path
//! `{root}/{template}/{owner}`, validated so that no part can add path
//! structure or escape the configured root, the stable Docker volume name
//! derived from it, and the in-container mount target per remote type.

use vstd::prelude::*;
use vstd::string::StringSliceAdditionalSpecFns;


use crate::text::{chars_eq, chars_of, control, has_char, hex16, is_control, push_chars, push_hex16, push_str, split, split_chars, str_eq, trim_end_char, trim_end_char_chars};

verus! {

/// Why a persistent host path could not be built from its parts.
#[derive(Debug, Clone, Copy, PartialEq, Eq, Structural)]
pub enum PathError {
    /// The configured root is not an absolute path (does not start with `/`).
    RelativeRoot,
    /// A segment of the assembled path is empty (e.g. `//`).
    EmptySegment,
    /// A segment is `.` or `..` (path traversal).
    Traversal,
    /// A segment contains a NUL byte or other control character.
    InvalidCharacter,
}

/// Some character of `s` is a control character.
pub open spec fn has_control(s: Seq<char>) -> bool {
    exists|i: int| 0 <= i < s.len() && is_control(#[trigger] s[i])
}

/// `s` is `.` or `..`.
pub open spec fn is_dot_segment(s: Seq<char>) -> bool {
    s == seq!['.'] || s == seq!['.', '.']
}

/// What is wrong with a template name or user id as a single path
/// component, checked in this order; `None` when it is acceptable.
pub open spec fn component_error(c: Seq<char>) -> Option<PathError> {
    if c.len() == 0 {
        Some(PathError::EmptySegment)
    } else if is_dot_segment(c) {
        Some(PathError::Traversal)
    } else if c.contains('/') || c.contains('\\') {
        Some(PathError::Traversal)
    } else if has_control(c) {
        Some(PathError::InvalidCharacter)
    } else {
        None
    }
}

/// What is wrong with the `index`-th `/`-separated segment of a path: only
/// the leading segment may be empty.
pub open spec fn segment_error(seg: Seq<char>, index: int) -> Option<PathError> {
    if seg.len() == 0 {
        if index == 0 {
            None
        } else {
            Some(PathError::EmptySegment)
        }
    } else if is_dot_segment(seg) {
        Some(PathError::Traversal)
    } else if has_control(seg) {
        Some(PathError::InvalidCharacter)
    } else {
        None
    }
}

/// The error of the first faulty segment, in order.
pub open spec fn first_segment_error(segs: Seq<Seq<char>>) -> Option<PathError>
    decreases segs.len(),
{
    if segs.len() == 0 {
        None
    } else {
        match first_segment_error(segs.drop_last()) {
            Some(e) => Some(e),
            None => segment_error(segs.last(), segs.len() - 1),
        }
    }
}

/// What is wrong with an assembled path: a NUL anywhere, else its first
/// faulty segment.
pub open spec fn path_error(path: Seq<char>) -> Option<PathError> {
    if path.contains('\0') {
        Some(PathError::InvalidCharacter)
    } else {
        first_segment_error(split(path, '/'))
    }
}

/// `{root}/{template_name}/{owner_user_id}` with the root's trailing `/`s
/// dropped, or the first reason it is refused.
pub open spec fn host_path_spec(root: Seq<char>, template_name: Seq<char>, owner: Seq<char>) -> Result<
    Seq<char>,
    PathError,
> {
    if !(root.len() > 0 && root[0] == '/') {
        Err(PathError::RelativeRoot)
    } else if component_error(template_name) is Some {
        Err(component_error(template_name).unwrap())
    } else if component_error(owner) is Some {
        Err(component_error(owner).unwrap())
    } else {
        let path = trim_end_char(root, '/') + seq!['/'] + template_name + seq!['/'] + owner;
        match path_error(path) {
            Some(e) => Err(e),
            None => Ok(path),
        }
    }
}

fn any_control(v: &Vec<char>) -> (r: bool)
    ensures
        r == has_control(v@),
{
    let mut i: usize = 0;
    while i < v.len()
        invariant
            i <= v.len(),
            forall|j: int| 0 <= j < i ==> !is_control(#[trigger] v@[j]),
        decreases v.len() - i,
    {
        if control(v[i]) {
            assert(is_control(v@[i as int]));
            return true;
        }
        i = i + 1;
    }
    false
}

fn is_dot_segment_chars(v: &Vec<char>) -> (r: bool)
    ensures
        r == is_dot_segment(v@),
{
    let one = vec!['.'];
    let two = vec!['.', '.'];
    assert(one@ =~= seq!['.']);
    assert(two@ =~= seq!['.', '.']);
    chars_eq(v, &one) || chars_eq(v, &two)
}

/// Check a template name or user id: non-empty, not `.`/`..`, free of `/`,
/// `\` and control characters, so it cannot inject path structure.
pub fn validate_component(component: &str) -> (r: Result<(), PathError>)
    ensures
        match r {
            Ok(()) => component_error(component@) is None,
            Err(e) => component_error(component@) == Some(e),
        },
{
    let v = chars_of(component);
    if v.len() == 0 {
        return Err(PathError::EmptySegment);
    }
    if is_dot_segment_chars(&v) {
        return Err(PathError::Traversal);
    }
    if has_char(&v, '/') || has_char(&v, '\\') {
        return Err(PathError::Traversal);
    }
    if has_char(&v, '\0') || any_control(&v) {
        proof {
            if v@.contains('\0') {
                let i = choose|i: int| 0 <= i < v@.len() && v@[i] == '\0';
                assert(is_control(v@[i]));
            }
        }
        return Err(PathError::InvalidCharacter);
    }
    Ok(())
}

/// Check every `/`-separated segment of an assembled path: only the leading
/// segment of an absolute path may be empty; `.`, `..`, NUL and control
/// characters are refused.
pub fn validate_path_segments(path: &str) -> (r: Result<(), PathError>)
    ensures
        match r {
            Ok(()) => path_error(path@) is None,
            Err(e) => path_error(path@) == Some(e),
        },
{
    let v = chars_of(path);
    if has_char(&v, '\0') {
        return Err(PathError::InvalidCharacter);
    }
    let segs = split_chars(&v, '/');
    let ghost all = split(path@, '/');
    let mut k: usize = 0;
    while k < segs.len()
        invariant
            k <= segs.len(),
            segs.len() == all.len(),
            all == split(path@, '/'),
            !path@.contains('\0'),
            forall|j: int| 0 <= j < segs.len() ==> (#[trigger] segs[j])@ == all[j],
            first_segment_error(all.subrange(0, k as int)) is None,
        decreases segs.len() - k,
    {
        let ghost after = all.subrange(0, k + 1);
        assert(after.drop_last() =~= all.subrange(0, k as int));
        assert(after.last() == segs[k as int]@);
        let seg = &segs[k];
        if seg.len() == 0 {
            if k != 0 {
                assert(first_segment_error(after) == Some(PathError::EmptySegment));
                assert(first_segment_error(all) == Some(PathError::EmptySegment)) by {
                    lemma_first_error_extends(all, k as int + 1);
                }
                return Err(PathError::EmptySegment);
            }
        } else if is_dot_segment_chars(seg) {
            assert(first_segment_error(all) == Some(PathError::Traversal)) by {
                lemma_first_error_extends(all, k as int + 1);
            }
            return Err(PathError::Traversal);
        } else if any_control(seg) {
            assert(first_segment_error(all) == Some(PathError::InvalidCharacter)) by {
                lemma_first_error_extends(all, k as int + 1);
            }
            return Err(PathError::InvalidCharacter);
        }
        k = k + 1;
        assert(all.subrange(0, k as int) == after);
    }
    assert(all.subrange(0, segs.len() as int) =~= all);
    Ok(())
}

/// Once a prefix of the segments has an error, every longer prefix has the
/// same one.
proof fn lemma_first_error_extends(segs: Seq<Seq<char>>, k: int)
    requires
        0 <= k <= segs.len(),
        first_segment_error(segs.subrange(0, k)) is Some,
    ensures
        first_segment_error(segs) == first_segment_error(segs.subrange(0, k)),
    decreases segs.len() - k,
{
    if k < segs.len() {
        let next = segs.subrange(0, k + 1);
        assert(next.drop_last() =~= segs.subrange(0, k));
        lemma_first_error_extends(segs, k + 1);
    } else {
        assert(segs.subrange(0, k) =~= segs);
    }
}

/// Build the per-instance host data path `{root}/{template_name}/{owner}`.
pub fn resolve_persistent_host_path(root: &str, template_name: &str, owner_user_id: &str) -> (r:
    Result<String, PathError>)
    ensures
        match r {
            Ok(p) => host_path_spec(root@, template_name@, owner_user_id@) == Ok::<
                Seq<char>,
                PathError,
            >(p@),
            Err(e) => host_path_spec(root@, template_name@, owner_user_id@) == Err::<
                Seq<char>,
                PathError,
            >(e),
        },
{
    let rv = chars_of(root);
    if !(rv.len() > 0 && rv[0] == '/') {
        return Err(PathError::RelativeRoot);
    }
    match validate_component(template_name) {
        Err(e) => return Err(e),
        Ok(()) => {},
    }
    match validate_component(owner_user_id) {
        Err(e) => return Err(e),
        Ok(()) => {},
    }
    let trimmed = trim_end_char_chars(&rv, '/');
    let mut path = String::new();
    push_chars(&mut path, &trimmed);
    push_str(&mut path, "/");
    push_str(&mut path, template_name);
    push_str(&mut path, "/");
    push_str(&mut path, owner_user_id);
    proof {
        reveal_strlit("/");
    }
    assert(path@ =~= trim_end_char(root@, '/') + seq!['/'] + template_name@ + seq!['/']
        + owner_user_id@);
    match validate_path_segments(path.as_str()) {
        Err(e) => Err(e),
        Ok(()) => Ok(path),
    }
}

/// The host data path when the template has a persistent root; `Ok(None)`
/// when it has none (persistence disabled).
pub fn resolve_persistent_host_path_opt(
    root: Option<&str>,
    template_name: &str,
    owner_user_id: &str,
) -> (r: Result<Option<String>, PathError>)
    ensures
        match root {
            None => r == Ok::<Option<String>, PathError>(None),
            Some(rt) => match r {
                Ok(Some(p)) => host_path_spec(rt@, template_name@, owner_user_id@) == Ok::<
                    Seq<char>,
                    PathError,
                >(p@),
                Ok(None) => false,
                Err(e) => host_path_spec(rt@, template_name@, owner_user_id@) == Err::<
                    Seq<char>,
                    PathError,
                >(e),
            },
        },
{
    match root {
        None => Ok(None),
        Some(rt) => match resolve_persistent_host_path(rt, template_name, owner_user_id) {
            Ok(p) => Ok(Some(p)),
            Err(e) => Err(e),
        },
    }
}

// ───────────────────────── volume names ─────────────────────────

/// FNV-1a (64-bit) over a byte string.
pub open spec fn fnv1a64_spec(bytes: Seq<u8>) -> u64
    decreases bytes.len(),
{
    if bytes.len() == 0 {
        0xcbf2_9ce4_8422_2325
    } else {
        let h = fnv1a64_spec(bytes.drop_last());
        (((h ^ (bytes.last() as u64)) as nat * 0x0000_0100_0000_01b3nat) % 0x1_0000_0000_0000_0000nat) as u64
    }
}

/// FNV-1a (64-bit) of a byte slice.
pub fn fnv1a64(data: &[u8]) -> (h: u64)
    ensures
        h == fnv1a64_spec(data@),
{
    let mut hash: u64 = 0xcbf2_9ce4_8422_2325;
    let mut i: usize = 0;
    while i < data.len()
        invariant
            i <= data.len(),
            hash == fnv1a64_spec(data@.subrange(0, i as int)),
        decreases data.len() - i,
    {
        let ghost pre = data@.subrange(0, i + 1);
        assert(pre.drop_last() =~= data@.subrange(0, i as int));
        hash = hash ^ (data[i] as u64);
        hash = hash.wrapping_mul(0x0000_0100_0000_01b3);
        i = i + 1;
        assert(data@.subrange(0, i as int) == pre);
    }
    assert(data@.subrange(0, data.len() as int) =~= data@);
    hash
}

/// `ow-persist-` and the FNV-1a digest of the host path in sixteen
/// lowercase hex digits.
pub open spec fn volume_name_spec(path: Seq<u8>) -> Seq<char> {
    "ow-persist-"@ + hex16(fnv1a64_spec(path))
}

/// The stable Docker volume name of a resolved host path.
pub fn persistent_volume_name(resolved_host_path: &str) -> (r: String)
    ensures
        r@ == volume_name_spec(resolved_host_path.spec_bytes()),
{
    let h = fnv1a64(resolved_host_path.as_bytes());
    let mut r = String::new();
    push_str(&mut r, "ow-persist-");
    push_hex16(&mut r, h);
    assert(r@ =~= volume_name_spec(resolved_host_path.spec_bytes()));
    r
}

/// The in-container mount target of a persistent volume: the `kasm-user`
/// home for kasmvnc, the `ow_user` home for ttyd and jupyter, none for any
/// other remote type.
pub fn persistent_container_target(remote_type: &str) -> (r: Option<&'static str>)
    ensures
        remote_type@ == "kasmvnc"@ ==> r is Some && r.unwrap()@ == "/home/kasm-user"@,
        remote_type@ == "ttyd"@ || remote_type@ == "jupyter"@ ==> r is Some && r.unwrap()@
            == "/home/ow_user"@,
        remote_type@ != "kasmvnc"@ && remote_type@ != "ttyd"@ && remote_type@ != "jupyter"@
            ==> r is None,
{
    proof {
        reveal_strlit("kasmvnc");
        reveal_strlit("ttyd");
        reveal_strlit("jupyter");
        assert("ttyd"@.len() != "kasmvnc"@.len());
        assert("jupyter"@[0] != "kasmvnc"@[0]);
    }
    if str_eq(remote_type, "kasmvnc") {
        Some("/home/kasm-user")
    } else if str_eq(remote_type, "ttyd") || str_eq(remote_type, "jupyter") {
        Some("/home/ow_user")
    } else {
        None
    }
}

// ───────────────────────── laws ─────────────────────────

proof fn lemma_no_first_error_means_each_segment_fine(segs: Seq<Seq<char>>, j: int)
    requires
        first_segment_error(segs) is None,
        0 <= j < segs.len(),
    ensures
        segment_error(segs[j], j) is None,
    decreases segs.len(),
{
    if j < segs.len() - 1 {
        lemma_no_first_error_means_each_segment_fine(segs.drop_last(), j);
    }
}

proof fn lemma_trim_end_char_is_prefix(s: Seq<char>, c: char)
    ensures
        trim_end_char(s, c).len() <= s.len(),
        trim_end_char(s, c) == s.subrange(0, trim_end_char(s, c).len() as int),
    decreases s.len(),
{
    if s.len() > 0 && s.last() == c {
        lemma_trim_end_char_is_prefix(s.drop_last(), c);
        let t = trim_end_char(s.drop_last(), c);
        assert(s.drop_last().subrange(0, t.len() as int) =~= s.subrange(0, t.len() as int));
    } else {
        assert(s.subrange(0, s.len() as int) =~= s);
    }
}

/// A host path that resolves is absolute, ends in `/{template}/{owner}`, and
/// every segment after the leading one is an ordinary name: never empty,
/// never `.` or `..`, never holding a control character. So no template name,
/// user id or root can make the path leave the configured root.
pub proof fn law_resolved_path_is_confined(root: Seq<char>, template_name: Seq<char>, owner: Seq<char>)
    requires
        host_path_spec(root, template_name, owner) is Ok,
    ensures
        ({
            let p = host_path_spec(root, template_name, owner)->Ok_0;
            let segs = split(p, '/');
            &&& p.len() > 0 && p[0] == '/'
            &&& p.subrange(p.len() - (template_name.len() + owner.len() + 2), p.len() as int)
                == seq!['/'] + template_name + seq!['/'] + owner
            &&& !p.contains('\0')
            &&& forall|j: int|
                1 <= j < segs.len() ==> (#[trigger] segs[j]).len() > 0 && !is_dot_segment(segs[j])
                    && !has_control(segs[j])
        }),
{
    let p = host_path_spec(root, template_name, owner)->Ok_0;
    let r = trim_end_char(root, '/');
    let tail = seq!['/'] + template_name + seq!['/'] + owner;
    assert(p == r + tail);
    lemma_trim_end_char_is_prefix(root, '/');
    if r.len() > 0 {
        assert(r[0] == root[0]);
    }
    assert(p.subrange(p.len() - (template_name.len() + owner.len() + 2), p.len() as int) =~= tail);
    let segs = split(p, '/');
    assert forall|j: int| 1 <= j < segs.len() implies (#[trigger] segs[j]).len() > 0
        && !is_dot_segment(segs[j]) && !has_control(segs[j]) by {
        lemma_no_first_error_means_each_segment_fine(segs, j);
    }
}

/// Lowercase ASCII letters, digits and `-`.
pub open spec fn docker_name_char(c: char) -> bool {
    ('a' <= c && c <= 'z') || ('0' <= c && c <= '9') || c == '-'
}

/// Every volume name is Docker-legal: 27 characters, all lowercase letters,
/// digits or `-` (so no `/`), and it begins with `ow-persist-`.
pub proof fn law_volume_name_is_docker_legal(path: Seq<u8>)
    ensures
        volume_name_spec(path).len() == 27,
        forall|i: int|
            0 <= i < volume_name_spec(path).len() ==> docker_name_char(
                #[trigger] volume_name_spec(path)[i],
            ),
        volume_name_spec(path).subrange(0, 11) == "ow-persist-"@,
{
    reveal_strlit("ow-persist-");
    let h = fnv1a64_spec(path);
    let n = volume_name_spec(path);
    assert forall|i: int| 0 <= i < n.len() implies docker_name_char(#[trigger] n[i]) by {
        if i >= 11 {
            let sh: u64 = (60 - 4 * (i - 11)) as u64;
            assert((h >> sh) & 0xf < 16) by (bit_vector);
            assert(n[i] == crate::text::hex_char(((h >> sh) & 0xf) as nat));
        }
    }
    assert(n.subrange(0, 11) =~= "ow-persist-"@);
}

} // verus!
