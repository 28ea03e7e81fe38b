use vstd::prelude::*;
use vstd::string::StrSliceExecFns;
use crate::text::{chars_of, find_char, find_from, lemma_find_from};

verus! {

/// The repository and the version of an image reference: what stands before
/// its first colon, and what stands after it. A reference without a colon has
/// neither.
pub open spec fn image_ref(image: Seq<char>) -> Option<(Seq<char>, Seq<char>)> {
    let colon = find_from(image, ':', 0);
    if 0 <= colon < image.len() {
        Some((image.subrange(0, colon), image.subrange(colon + 1, image.len() as int)))
    } else {
        None
    }
}

/// An image reference has a repository and a version exactly if it holds a
/// colon; the repository then holds none, and repository, colon and version
/// together are the reference.
pub proof fn lemma_image_ref(image: Seq<char>)
    ensures
        image_ref(image) is Some <==> image.contains(':'),
        image_ref(image) matches Some(parts) ==> !parts.0.contains(':') && image == parts.0 + seq![
            ':',
        ] + parts.1,
{
    lemma_find_from(image, ':', 0);
    let colon = find_from(image, ':', 0);
    if colon < image.len() {
        let parts = image_ref(image)->0;
        assert(image =~= parts.0 + seq![':'] + parts.1);
        assert(image.contains(':'));
    } else {
        assert(!image.contains(':'));
    }
}

/// Splits an image reference at its first colon into repository and version.
pub fn parse_image_ref(image_name: &str) -> (res: Option<(String, String)>)
    ensures
        res.deep_view() == image_ref(image_name@),
{
    let cs = chars_of(image_name);
    let n = cs.len();
    let colon = find_char(&cs, ':', 0);
    if colon < n {
        let repository = String::from_str(image_name.substring_char(0, colon));
        let version = String::from_str(image_name.substring_char(colon + 1, n));
        Some((repository, version))
    } else {
        None
    }
}

} // verus!
