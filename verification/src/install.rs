//! Installing a downloaded disk image in place of the running application:
//! reading the mount point that `hdiutil attach -plist` reports, writing the
//! replacement script, and the order of the installation steps.

use vstd::prelude::*;
use vstd::string::{StrSliceExecFns, StringExecFns};
use vstd::utf8::{decode_utf8, valid_utf8};
use crate::text::{chars_of, find, find_from, lemma_find_from, lemma_find_from_at, occurs_at};

verus! {

/// The text that `String::from_utf8_lossy` makes of `bytes`.
pub uninterp spec fn utf8_lossy(bytes: Seq<u8>) -> Seq<char>;

/// Decodes bytes as UTF-8 with `String::from_utf8_lossy`.
///
/// Trusted: the result is a function of the bytes (the name `utf8_lossy`),
/// and for valid UTF-8 it is the decoded text, as the function's
/// documentation says. How invalid sequences are replaced is not stated.
#[verifier::external_body]
fn decode_lossy(bytes: &[u8]) -> (r: String)
    ensures
        r@ == utf8_lossy(bytes@),
        valid_utf8(bytes@) ==> r@ == decode_utf8(bytes@),
{
    String::from_utf8_lossy(bytes).into_owned()
}

/// The mount point in the text of `hdiutil attach -plist`: the contents of the
/// first `<string>` element after the first `<key>mount-point</key>`.
pub open spec fn mount_point_spec(text: Seq<char>) -> Option<Seq<char>> {
    let marker = "<key>mount-point</key>"@;
    match find_from(text, marker, 0) {
        None => None,
        Some(p) => {
            let after = text.subrange(p + marker.len(), text.len() as int);
            match find_from(after, "<string>"@, 0) {
                None => None,
                Some(s) => {
                    let v = s + "<string>"@.len();
                    match find_from(after.subrange(v, after.len() as int), "</string>"@, 0) {
                        None => None,
                        Some(e) => Some(after.subrange(v, v + e)),
                    }
                },
            }
        },
    }
}

/// When the output is the mount-point key followed by one `<string>` element,
/// the mount point is the whole text of that element, spaces and all, so long
/// as that text holds no `<`; whatever follows the element makes no difference.
pub proof fn law_mount_point_is_whole_element(x: Seq<char>, tail: Seq<char>)
    requires
        forall|j: int| 0 <= j < x.len() ==> x[j] != '<',
    ensures
        mount_point_spec("<key>mount-point</key>"@ + "<string>"@ + x + "</string>"@ + tail)
            == Some(x),
{
    let m = "<key>mount-point</key>"@;
    let o = "<string>"@;
    let c = "</string>"@;
    reveal_strlit("</string>");
    let text = m + o + x + c + tail;
    assert(text.subrange(0, m.len() as int) =~= m);
    lemma_find_from_at(text, m, 0, 0);
    let after = text.subrange(m.len() as int, text.len() as int);
    assert(after =~= o + x + c + tail);
    assert(after.subrange(0, o.len() as int) =~= o);
    lemma_find_from_at(after, o, 0, 0);
    let v = o.len() as int;
    let r2 = after.subrange(v, after.len() as int);
    assert(r2 =~= x + c + tail);
    assert(r2.subrange(x.len() as int, (x.len() + c.len()) as int) =~= c);
    assert forall|j: int| 0 <= j < x.len() implies !occurs_at(r2, c, j) by {
        if occurs_at(r2, c, j) {
            assert(r2.subrange(j, j + c.len())[0] == c[0]);
            assert(r2[j] == x[j]);
        }
    }
    lemma_find_from_at(r2, c, 0, x.len() as int);
    assert(after.subrange(v, v + x.len()) =~= x);
}

/// The characters of `v` from index `k` on.
fn tail_of(v: &Vec<char>, k: usize) -> (r: Vec<char>)
    requires
        k <= v.len(),
    ensures
        r@ == v@.subrange(k as int, v@.len() as int),
{
    let mut out: Vec<char> = Vec::new();
    let mut i = k;
    while i < v.len()
        invariant
            k <= i <= v.len(),
            out@ == v@.subrange(k as int, i as int),
        decreases v.len() - i,
    {
        out.push(v[i]);
        assert(out@ =~= v@.subrange(k as int, i + 1));
        i = i + 1;
    }
    out
}

/// Finds the mount point in the text of `hdiutil attach -plist`: the contents
/// of the first `<string>` element after the first `<key>mount-point</key>`.
pub fn mount_point_in_text(text: &str) -> (r: Option<String>)
    ensures
        match mount_point_spec(text@) {
            Some(m) => r matches Some(s) && s@ == m,
            None => r is None,
        },
{
    let t = chars_of(text);
    let marker = chars_of("<key>mount-point</key>");
    let open_tag = chars_of("<string>");
    let close_tag = chars_of("</string>");
    proof {
        lemma_find_from(t@, marker@, 0);
    }
    let p = match find(&t, &marker, 0) {
        Some(p) => p,
        None => return None,
    };
    assert(find_from(t@, marker@, 0) == Some(p as int));
    assert(p + marker@.len() <= t@.len());
    assert(t@.len() == t.len() && marker@.len() == marker.len());
    let after = tail_of(&t, p + marker.len());
    proof {
        lemma_find_from(after@, open_tag@, 0);
    }
    let s = match find(&after, &open_tag, 0) {
        Some(s) => s,
        None => return None,
    };
    assert(find_from(after@, open_tag@, 0) == Some(s as int));
    assert(s + open_tag@.len() <= after@.len());
    let v = s + open_tag.len();
    let rest = tail_of(&after, v);
    proof {
        lemma_find_from(rest@, close_tag@, 0);
    }
    let e = match find(&rest, &close_tag, 0) {
        Some(e) => e,
        None => return None,
    };
    assert(find_from(rest@, close_tag@, 0) == Some(e as int));
    assert(e + close_tag@.len() <= rest@.len());
    let start = p + marker.len() + v;
    let end = start + e;
    let path = text.substring_char(start, end).to_owned();
    assert(path@ =~= after@.subrange(v as int, v + e));
    Some(path)
}

/// Reads the mount point from the output of `hdiutil attach -plist`, decoded
/// as UTF-8 with invalid sequences replaced; output that is valid UTF-8 is
/// read as the text it encodes.
pub fn parse_hdiutil_mount_point(plist_output: &[u8]) -> (r: Option<String>)
    ensures
        match mount_point_spec(utf8_lossy(plist_output@)) {
            Some(m) => r matches Some(s) && s@ == m,
            None => r is None,
        },
        valid_utf8(plist_output@) ==> match mount_point_spec(decode_utf8(plist_output@)) {
            Some(m) => r matches Some(s) && s@ == m,
            None => r is None,
        },
{
    let text = decode_lossy(plist_output);
    mount_point_in_text(text.as_str())
}

/// The replacement script: wait for the application to quit, put the staged
/// bundle in place of the old one, remove the disk image, detach its volume,
/// remove the work directory, and open the new application.
pub open spec fn script_spec(
    bundle: Seq<char>,
    staged: Seq<char>,
    dmg_path: Seq<char>,
    mount_point: Seq<char>,
    work_dir: Seq<char>,
) -> Seq<char> {
    "#!/bin/bash\nsleep 2\nrm -rf \""@ + bundle + "\"\nmv \""@ + staged + "\" \""@ + bundle
        + "\"\nrm -f \""@ + dmg_path + "\" 2>/dev/null\nhdiutil detach \""@ + mount_point
        + "\" -force 2>/dev/null\nrm -rf \""@ + work_dir + "\" 2>/dev/null\nopen \""@ + bundle
        + "\"\n"@
}

/// Writes the replacement script for the given paths.
pub fn install_script(
    bundle: &str,
    staged: &str,
    dmg_path: &str,
    mount_point: &str,
    work_dir: &str,
) -> (r: String)
    ensures
        r@ == script_spec(bundle@, staged@, dmg_path@, mount_point@, work_dir@),
{
    let mut s = "#!/bin/bash\nsleep 2\nrm -rf \"".to_owned();
    s.append(bundle);
    s.append("\"\nmv \"");
    s.append(staged);
    s.append("\" \"");
    s.append(bundle);
    s.append("\"\nrm -f \"");
    s.append(dmg_path);
    s.append("\" 2>/dev/null\nhdiutil detach \"");
    s.append(mount_point);
    s.append("\" -force 2>/dev/null\nrm -rf \"");
    s.append(work_dir);
    s.append("\" 2>/dev/null\nopen \"");
    s.append(bundle);
    s.append("\"\n");
    s
}

} // verus!
