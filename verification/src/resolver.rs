//! The package resolver: out of the workspace's package metadata, the
//! names of the packages that are deployable programs — those whose
//! manifest path's third-from-last segment is the fixed `programs` marker
//! directory.

use vstd::prelude::*;

verus! {

/// One package from the workspace metadata: its name and its manifest
/// file's path, with `/` separating the path's segments.
pub struct ProgramDescriptor {
    pub name: String,
    pub manifest_path: String,
}

/// The segments of a path, split at every `/`: one more segment than
/// there are separators, and empty segments where separators touch.
pub open spec fn split_slash(s: Seq<char>) -> Seq<Seq<char>>
    decreases s.len(),
{
    if s.len() == 0 {
        seq![Seq::<char>::empty()]
    } else if s[0] == '/' {
        seq![Seq::<char>::empty()] + split_slash(s.skip(1))
    } else {
        let rest = split_slash(s.skip(1));
        seq![seq![s[0]] + rest[0]] + rest.skip(1)
    }
}

/// A split always yields at least one segment.
pub proof fn lemma_split_slash_len(s: Seq<char>)
    ensures
        split_slash(s).len() >= 1,
    decreases s.len(),
{
    if s.len() > 0 {
        lemma_split_slash_len(s.skip(1));
    }
}

/// The marker convention: a manifest path names a deployable program
/// exactly when its third-from-last segment is `programs`.
pub open spec fn is_program_manifest(path: Seq<char>) -> bool {
    let segs = split_slash(path);
    &&& segs.len() >= 3
    &&& segs[segs.len() - 3] == "programs"@
}

/// The path's segments, split at every `/`.
pub fn split_path(s: &str) -> (r: Vec<String>)
    ensures
        r@.len() == split_slash(s@).len(),
        forall|i: int| 0 <= i < r@.len() ==> r@[i]@ == split_slash(s@)[i],
    decreases s@.len(),
{
    let n = s.unicode_len();
    if n == 0 {
        let mut segs: Vec<String> = Vec::new();
        segs.push(String::new());
        segs
    } else {
        let c = s.get_char(0);
        let tail = s.substring_char(1, n);
        proof {
            assert(tail@ =~= s@.skip(1));
            lemma_split_slash_len(s@.skip(1));
        }
        let mut rest = split_path(tail);
        if c == '/' {
            rest.insert(0, String::new());
            proof {
                assert forall|i: int| 0 <= i < rest@.len() implies rest@[i]@ == split_slash(s@)[i]
                by {
                    if i > 0 {
                        assert(rest@[i]@ == split_slash(s@.skip(1))[i - 1]);
                    }
                }
            }
            rest
        } else {
            let head = s.substring_char(0, 1);
            proof {
                assert(head@ =~= seq![s@[0]]);
            }
            let first_tail = rest.remove(0);
            let first = String::from_str(head).concat(first_tail.as_str());
            rest.insert(0, first);
            proof {
                assert forall|i: int| 0 <= i < rest@.len() implies rest@[i]@ == split_slash(s@)[i]
                by {
                    if i > 0 {
                        assert(rest@[i]@ == split_slash(s@.skip(1))[i]);
                        assert(split_slash(s@)[i] == split_slash(s@.skip(1)).skip(1)[i - 1]);
                    }
                }
            }
            rest
        }
    }
}

/// Whether one package is a deployable program, judged from its manifest
/// path by the marker convention.
pub fn is_program_package(package: &ProgramDescriptor) -> (r: bool)
    ensures
        r == is_program_manifest(package.manifest_path@),
{
    let segs = split_path(package.manifest_path.as_str());
    let n = segs.len();
    if n >= 3 {
        let marker = String::from_str("programs");
        let seg: &String = &segs[n - 3];
        seg.eq(&marker)
    } else {
        false
    }
}

/// The names of the deployable programs among the given packages, in
/// their given order.
pub open spec fn program_names_spec(packages: Seq<ProgramDescriptor>) -> Seq<Seq<char>>
    decreases packages.len(),
{
    if packages.len() == 0 {
        Seq::empty()
    } else {
        let rest = program_names_spec(packages.skip(1));
        if is_program_manifest(packages[0].manifest_path@) {
            seq![packages[0].name@] + rest
        } else {
            rest
        }
    }
}

/// Filters the workspace's packages down to the deployable programs and
/// returns their names, keeping the metadata's order.  Reading the
/// metadata itself has no build or network side effects, and a metadata
/// read failure aborts the whole flow before this decision is reached.
pub fn program_names(packages: Vec<ProgramDescriptor>) -> (r: Vec<String>)
    ensures
        r@.len() == program_names_spec(packages@).len(),
        forall|i: int| 0 <= i < r@.len() ==> r@[i]@ == program_names_spec(packages@)[i],
    decreases packages@.len(),
{
    let ghost original = packages@;
    let mut packages = packages;
    if packages.len() == 0 {
        Vec::new()
    } else {
        let first = packages.remove(0);
        proof {
            assert(packages@ =~= original.skip(1));
        }
        let mut rest = program_names(packages);
        if is_program_package(&first) {
            rest.insert(0, first.name);
            proof {
                assert forall|i: int| 0 <= i < rest@.len() implies rest@[i]@ == program_names_spec(
                    original,
                )[i] by {
                    if i > 0 {
                        assert(rest@[i]@ == program_names_spec(original.skip(1))[i - 1]);
                    }
                }
            }
            rest
        } else {
            rest
        }
    }
}

} // verus!
