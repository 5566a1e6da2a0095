//! Which declared libraries apply to the running platform, and which
//! concrete artifacts each one contributes: the generic artifact, a
//! native-classifier variant, or a path derived from the maven-style
//! coordinate against a legacy or canonical host.

use vstd::prelude::*;
use vstd::string::StrSliceExecFns;
use vstd::string::StringExecFns;
use crate::model::Artifact;
use crate::model::DownloadTask;
use crate::model::Library;
use crate::model::LibraryDownloads;
use crate::model::OsRule;
use crate::model::Platform;
use crate::model::TaskView;
use crate::model::VersionDetails;
use crate::strutil::arch_token_spec;
use crate::strutil::subst_arch;

verus! {

/// Position of the first occurrence of `c` in `s`, if any.
pub open spec fn find_idx(s: Seq<char>, c: char) -> Option<int>
    decreases s.len(),
{
    if s.len() == 0 {
        None
    } else if s[0] == c {
        Some(0int)
    } else {
        match find_idx(s.subrange(1, s.len() as int), c) {
            None => None,
            Some(i) => Some(1 + i),
        }
    }
}

proof fn lemma_find_idx_at(s: Seq<char>, c: char, i: int)
    requires
        0 <= i <= s.len(),
        forall|j: int| 0 <= j < i ==> s[j] != c,
        i < s.len() ==> s[i] == c,
    ensures
        find_idx(s, c) == if i < s.len() {
            Some(i)
        } else {
            None::<int>
        },
    decreases s.len(),
{
    if s.len() == 0 {
    } else if i == 0 {
    } else {
        let s1 = s.subrange(1, s.len() as int);
        assert(forall|j: int| 0 <= j < i - 1 ==> s1[j] == s[j + 1]);
        if i - 1 < s1.len() {
            assert(s1[i - 1] == s[i]);
        }
        lemma_find_idx_at(s1, c, i - 1);
    }
}

/// `s` split at every occurrence of `c` (no occurrence: one part).
pub open spec fn split_at(s: Seq<char>, c: char) -> Seq<Seq<char>>
    decreases s.len(),
{
    match find_idx(s, c) {
        Some(i) => if 0 <= i < s.len() {
            seq![s.subrange(0, i)] + split_at(s.subrange(i + 1, s.len() as int), c)
        } else {
            seq![s]
        },
        None => seq![s],
    }
}

proof fn lemma_split_len_ge1(s: Seq<char>, c: char)
    ensures
        split_at(s, c).len() >= 1,
    decreases s.len(),
{
    match find_idx(s, c) {
        Some(i) => {
            if 0 <= i < s.len() {
                lemma_split_len_ge1(s.subrange(i + 1, s.len() as int), c);
            }
        },
        None => {},
    }
}

/// The group part of a coordinate, with its dots turned into path
/// separators.
pub open spec fn replace_dots(s: Seq<char>) -> Seq<char> {
    s.map_values(
        |ch: char|
            if ch == '.' {
                '/'
            } else {
                ch
            },
    )
}

/// The repository-relative path a 3- or 4-part maven-style coordinate
/// `group:artifact:version[:classifier]` stands for:
/// `group/with/dots/as/slashes/artifact/version/artifact-version[-classifier].jar`.
/// Any other shape has no path.
pub open spec fn coord_path(name: Seq<char>) -> Option<Seq<char>> {
    let parts = split_at(name, ':');
    if parts.len() == 3 {
        Some(
            replace_dots(parts[0]) + "/"@ + parts[1] + "/"@ + parts[2] + "/"@ + parts[1] + "-"@
                + parts[2] + ".jar"@,
        )
    } else if parts.len() == 4 {
        Some(
            replace_dots(parts[0]) + "/"@ + parts[1] + "/"@ + parts[2] + "/"@ + parts[1] + "-"@
                + parts[2] + "-"@ + parts[3] + ".jar"@,
        )
    } else {
        None
    }
}

/// Scan for `c` in `s` from position `from` on.
fn find_char(s: &str, n: usize, from: usize, c: char) -> (r: Option<usize>)
    requires
        n == s@.len(),
        from <= n,
    ensures
        r matches Some(i) ==> from <= i < n && s@[i as int] == c && forall|j: int|
            from <= j < i ==> s@[j] != c,
        r is None ==> forall|j: int| from <= j < n ==> s@[j] != c,
{
    let mut i: usize = from;
    while i < n
        invariant
            from <= i <= n,
            n == s@.len(),
            forall|j: int| from <= j < i ==> s@[j] != c,
        decreases n - i,
    {
        if s.get_char(i) == c {
            return Some(i);
        }
        i += 1;
    }
    None
}

/// Replace every dot by a path separator.
fn replace_dots_exec(s: &str) -> (r: String)
    ensures
        r@ == replace_dots(s@),
{
    let n = s.unicode_len();
    let mut out = String::new();
    let mut i: usize = 0;
    proof {
        assert(out@ =~= replace_dots(s@.subrange(0, 0)));
    }
    while i < n
        invariant
            i <= n,
            n == s@.len(),
            out@ == replace_dots(s@.subrange(0, i as int)),
        decreases n - i,
    {
        let ch = s.get_char(i);
        if ch == '.' {
            crate::strutil::push_char(&mut out, '/');
        } else {
            crate::strutil::push_char(&mut out, ch);
        }
        proof {
            assert(out@ =~= replace_dots(s@.subrange(0, i as int + 1)));
        }
        i += 1;
    }
    proof {
        assert(s@.subrange(0, n as int) =~= s@);
    }
    out
}

/// Derive the repository-relative path of a maven-style coordinate, or
/// nothing if the coordinate does not have 3 or 4 parts.
pub fn library_name_to_path(name: &str) -> (r: Option<String>)
    ensures
        r matches Some(p) ==> coord_path(name@) matches Some(q) && p@ == q,
        r is None ==> coord_path(name@) is None,
{
    let n = name.unicode_len();
    let ghost s = name@;
    let p1 = match find_char(name, n, 0, ':') {
        Some(i) => i,
        None => {
            proof {
                lemma_find_idx_at(s, ':', n as int);
            }
            return None;
        },
    };
    proof {
        lemma_find_idx_at(s, ':', p1 as int);
        assert(split_at(s, ':') == seq![s.subrange(0, p1 as int)] + split_at(
            s.subrange(p1 as int + 1, n as int),
            ':',
        ));
    }
    let ghost t1 = s.subrange(p1 as int + 1, n as int);
    let p2 = match find_char(name, n, p1 + 1, ':') {
        Some(i) => i,
        None => {
            proof {
                assert(forall|j: int| 0 <= j < t1.len() ==> t1[j] == s[p1 + 1 + j]);
                lemma_find_idx_at(t1, ':', t1.len() as int);
                assert(split_at(s, ':').len() == 2);
            }
            return None;
        },
    };
    proof {
        assert(forall|j: int| 0 <= j < t1.len() ==> t1[j] == s[p1 + 1 + j]);
        lemma_find_idx_at(t1, ':', p2 - p1 - 1);
        assert(t1.subrange(0, p2 - p1 - 1) =~= s.subrange(p1 as int + 1, p2 as int));
        assert(t1.subrange(p2 - p1 - 1 + 1, t1.len() as int) =~= s.subrange(
            p2 as int + 1,
            n as int,
        ));
        assert(split_at(t1, ':') == seq![s.subrange(p1 as int + 1, p2 as int)] + split_at(
            s.subrange(p2 as int + 1, n as int),
            ':',
        ));
    }
    let ghost t2 = s.subrange(p2 as int + 1, n as int);
    let group = replace_dots_exec(name.substring_char(0, p1));
    let artifact = name.substring_char(p1 + 1, p2);
    let p3 = match find_char(name, n, p2 + 1, ':') {
        Some(i) => i,
        None => {
            // three parts: group, artifact, version
            proof {
                assert(forall|j: int| 0 <= j < t2.len() ==> t2[j] == s[p2 + 1 + j]);
                lemma_find_idx_at(t2, ':', t2.len() as int);
                assert(split_at(t2, ':') == seq![t2]);
                assert(split_at(s, ':').len() == 3);
                assert(split_at(s, ':')[0] == s.subrange(0, p1 as int));
                assert(split_at(s, ':')[1] == s.subrange(p1 as int + 1, p2 as int));
                assert(split_at(s, ':')[2] == t2);
            }
            let version = name.substring_char(p2 + 1, n);
            let mut out = group;
            out.append("/");
            out.append(artifact);
            out.append("/");
            out.append(version);
            out.append("/");
            out.append(artifact);
            out.append("-");
            out.append(version);
            out.append(".jar");
            proof {
                assert(out@ =~= coord_path(s)->Some_0);
            }
            return Some(out);
        },
    };
    proof {
        assert(forall|j: int| 0 <= j < t2.len() ==> t2[j] == s[p2 + 1 + j]);
        lemma_find_idx_at(t2, ':', p3 - p2 - 1);
        assert(t2.subrange(0, p3 - p2 - 1) =~= s.subrange(p2 as int + 1, p3 as int));
        assert(t2.subrange(p3 - p2 - 1 + 1, t2.len() as int) =~= s.subrange(
            p3 as int + 1,
            n as int,
        ));
        assert(split_at(t2, ':') == seq![s.subrange(p2 as int + 1, p3 as int)] + split_at(
            s.subrange(p3 as int + 1, n as int),
            ':',
        ));
    }
    let ghost t3 = s.subrange(p3 as int + 1, n as int);
    match find_char(name, n, p3 + 1, ':') {
        Some(p4) => {
            // five or more parts
            proof {
                assert(forall|j: int| 0 <= j < t3.len() ==> t3[j] == s[p3 + 1 + j]);
                assert(t3[p4 - p3 - 1] == ':');
                lemma_find_idx_at(t3, ':', p4 - p3 - 1);
                lemma_split_len_ge1(t3.subrange(p4 - p3 - 1 + 1, t3.len() as int), ':');
                assert(split_at(t3, ':').len() >= 2);
                assert(split_at(s, ':').len() >= 5);
            }
            None
        },
        None => {
            // four parts: group, artifact, version, classifier
            proof {
                assert(forall|j: int| 0 <= j < t3.len() ==> t3[j] == s[p3 + 1 + j]);
                lemma_find_idx_at(t3, ':', t3.len() as int);
                assert(split_at(t3, ':') == seq![t3]);
                assert(split_at(s, ':').len() == 4);
                assert(split_at(s, ':')[0] == s.subrange(0, p1 as int));
                assert(split_at(s, ':')[1] == s.subrange(p1 as int + 1, p2 as int));
                assert(split_at(s, ':')[2] == s.subrange(p2 as int + 1, p3 as int));
                assert(split_at(s, ':')[3] == t3);
            }
            let version = name.substring_char(p2 + 1, p3);
            let classifier = name.substring_char(p3 + 1, n);
            let mut out = group;
            out.append("/");
            out.append(artifact);
            out.append("/");
            out.append(version);
            out.append("/");
            out.append(artifact);
            out.append("-");
            out.append(version);
            out.append("-");
            out.append(classifier);
            out.append(".jar");
            proof {
                assert(out@ =~= coord_path(s)->Some_0);
            }
            Some(out)
        },
    }
}

/// Does a rule's OS matcher cover the platform? Absent fields cover
/// anything.
pub open spec fn rule_matches(r: OsRule, p: Platform) -> bool {
    (match r.os_name {
        Some(n) => n@ == p.os_name@,
        None => true,
    }) && (match r.os_arch {
        Some(a) => a@ == p.arch@,
        None => true,
    })
}

/// The verdict of a declared rule list: the last matching rule decides;
/// with no matching rule the library does not apply.
pub open spec fn rules_verdict(rs: Seq<OsRule>, p: Platform) -> bool
    decreases rs.len(),
{
    if rs.len() == 0 {
        false
    } else if rule_matches(rs.last(), p) {
        rs.last().allow
    } else {
        rules_verdict(rs.drop_last(), p)
    }
}

/// Does a library apply on the platform? A library with no rule set
/// always applies.
pub open spec fn library_applies(lib: Library, p: Platform) -> bool {
    match lib.rules {
        None => true,
        Some(rs) => rules_verdict(rs@, p),
    }
}

fn rule_matches_exec(r: &OsRule, p: &Platform) -> (b: bool)
    ensures
        b == rule_matches(*r, *p),
{
    let name_ok = match &r.os_name {
        Some(n) => crate::paths::str_eq(n.as_str(), p.os_name.as_str()),
        None => true,
    };
    let arch_ok = match &r.os_arch {
        Some(a) => crate::paths::str_eq(a.as_str(), p.arch.as_str()),
        None => true,
    };
    name_ok && arch_ok
}

/// Decide whether a declared library applies on the platform.
pub fn should_use_library(lib: &Library, platform: &Platform) -> (b: bool)
    ensures
        b == library_applies(*lib, *platform),
{
    match &lib.rules {
        None => true,
        Some(rs) => {
            let n = rs.len();
            let mut verdict = false;
            let mut i: usize = 0;
            proof {
                assert(rs@.subrange(0, 0) =~= Seq::<OsRule>::empty());
            }
            while i < n
                invariant
                    i <= n,
                    n == rs@.len(),
                    verdict == rules_verdict(rs@.subrange(0, i as int), *platform),
                decreases n - i,
            {
                if rule_matches_exec(&rs[i], platform) {
                    verdict = rs[i].allow;
                } else {
                }
                proof {
                    let pre = rs@.subrange(0, i as int);
                    let post = rs@.subrange(0, i as int + 1);
                    assert(post.drop_last() =~= pre);
                    assert(post.last() == rs@[i as int]);
                }
                i += 1;
            }
            proof {
                assert(rs@.subrange(0, n as int) =~= rs@);
            }
            verdict
        },
    }
}

/// Position of the first native entry for an OS name.
pub open spec fn native_idx(pairs: Seq<(String, String)>, key: Seq<char>) -> Option<int>
    decreases pairs.len(),
{
    if pairs.len() == 0 {
        None
    } else if pairs[0].0@ == key {
        Some(0int)
    } else {
        match native_idx(pairs.subrange(1, pairs.len() as int), key) {
            None => None,
            Some(i) => Some(1 + i),
        }
    }
}

proof fn lemma_native_idx_at(pairs: Seq<(String, String)>, key: Seq<char>, i: int)
    requires
        0 <= i <= pairs.len(),
        forall|j: int| 0 <= j < i ==> pairs[j].0@ != key,
        i < pairs.len() ==> pairs[i].0@ == key,
    ensures
        native_idx(pairs, key) == if i < pairs.len() {
            Some(i)
        } else {
            None::<int>
        },
    decreases pairs.len(),
{
    if pairs.len() == 0 {
    } else if i == 0 {
    } else {
        let p1 = pairs.subrange(1, pairs.len() as int);
        assert(forall|j: int| 0 <= j < i - 1 ==> p1[j] == pairs[j + 1]);
        if i - 1 < p1.len() {
            assert(p1[i - 1] == pairs[i]);
        }
        lemma_native_idx_at(p1, key, i - 1);
    }
}

/// Position of the first classifier entry for a key.
pub open spec fn classifier_idx(pairs: Seq<(String, Artifact)>, key: Seq<char>) -> Option<int>
    decreases pairs.len(),
{
    if pairs.len() == 0 {
        None
    } else if pairs[0].0@ == key {
        Some(0int)
    } else {
        match classifier_idx(pairs.subrange(1, pairs.len() as int), key) {
            None => None,
            Some(i) => Some(1 + i),
        }
    }
}

proof fn lemma_classifier_idx_at(pairs: Seq<(String, Artifact)>, key: Seq<char>, i: int)
    requires
        0 <= i <= pairs.len(),
        forall|j: int| 0 <= j < i ==> pairs[j].0@ != key,
        i < pairs.len() ==> pairs[i].0@ == key,
    ensures
        classifier_idx(pairs, key) == if i < pairs.len() {
            Some(i)
        } else {
            None::<int>
        },
    decreases pairs.len(),
{
    if pairs.len() == 0 {
    } else if i == 0 {
    } else {
        let p1 = pairs.subrange(1, pairs.len() as int);
        assert(forall|j: int| 0 <= j < i - 1 ==> p1[j] == pairs[j + 1]);
        if i - 1 < p1.len() {
            assert(p1[i - 1] == pairs[i]);
        }
        lemma_classifier_idx_at(p1, key, i - 1);
    }
}

fn lookup_native_idx(pairs: &Vec<(String, String)>, key: &str) -> (r: Option<usize>)
    ensures
        r matches Some(i) ==> native_idx(pairs@, key@) == Some(i as int) && i < pairs@.len(),
        r is None ==> native_idx(pairs@, key@) is None,
{
    let n = pairs.len();
    let mut i: usize = 0;
    while i < n
        invariant
            i <= n,
            n == pairs@.len(),
            forall|j: int| 0 <= j < i ==> pairs@[j].0@ != key@,
        decreases n - i,
    {
        if crate::paths::str_eq(pairs[i].0.as_str(), key) {
            proof {
                lemma_native_idx_at(pairs@, key@, i as int);
            }
            return Some(i);
        }
        i += 1;
    }
    proof {
        lemma_native_idx_at(pairs@, key@, n as int);
    }
    None
}

fn lookup_classifier_idx(pairs: &Vec<(String, Artifact)>, key: &str) -> (r: Option<usize>)
    ensures
        r matches Some(i) ==> classifier_idx(pairs@, key@) == Some(i as int) && i < pairs@.len(),
        r is None ==> classifier_idx(pairs@, key@) is None,
{
    let n = pairs.len();
    let mut i: usize = 0;
    while i < n
        invariant
            i <= n,
            n == pairs@.len(),
            forall|j: int| 0 <= j < i ==> pairs@[j].0@ != key@,
        decreases n - i,
    {
        if crate::paths::str_eq(pairs[i].0.as_str(), key) {
            proof {
                lemma_classifier_idx_at(pairs@, key@, i as int);
            }
            return Some(i);
        }
        i += 1;
    }
    proof {
        lemma_classifier_idx_at(pairs@, key@, n as int);
    }
    None
}

/// The task of one concrete artifact, stored under the libraries
/// directory at its repository-relative path.
pub open spec fn artifact_task(a: Artifact, dir: Seq<char>) -> TaskView {
    TaskView { url: a.url@, path: dir + "/"@ + a.path@, sha1: a.sha1@ }
}

/// The native-classifier task a library contributes, if any: the entry of
/// the natives map for the platform's OS, its `${arch}` placeholder
/// substituted, looked up among the classifier artifacts.
pub open spec fn native_tasks(
    lib: Library,
    d: LibraryDownloads,
    p: Platform,
    dir: Seq<char>,
) -> Seq<TaskView> {
    match lib.natives {
        None => Seq::<TaskView>::empty(),
        Some(nmap) => match native_idx(nmap@, p.os_name@) {
            None => Seq::<TaskView>::empty(),
            Some(i) => {
                let key = subst_arch(nmap@[i].1@, arch_token_spec(p.arch@));
                match classifier_idx(d.classifiers@, key) {
                    None => Seq::<TaskView>::empty(),
                    Some(j) => seq![artifact_task(d.classifiers@[j].1, dir)],
                }
            },
        },
    }
}

/// The URL of a coordinate-derived path against a legacy base URL.
pub open spec fn legacy_url(base: Seq<char>, rel: Seq<char>) -> Seq<char> {
    if base.len() > 0 && base.last() == '/' {
        base + rel
    } else {
        base + "/"@ + rel
    }
}

/// Every task a declared library contributes on the platform: none if it
/// does not apply; its artifact and native-classifier tasks if it carries
/// structured descriptors; otherwise one coordinate-derived task against
/// its legacy base URL or the canonical public host, with no published
/// digest.
pub open spec fn resolve_spec(lib: Library, p: Platform, dir: Seq<char>) -> Seq<TaskView> {
    if !library_applies(lib, p) {
        Seq::<TaskView>::empty()
    } else {
        match lib.downloads {
            Some(d) => (match d.artifact {
                Some(a) => seq![artifact_task(a, dir)],
                None => Seq::<TaskView>::empty(),
            }) + native_tasks(lib, d, p, dir),
            None => match coord_path(lib.name@) {
                None => Seq::<TaskView>::empty(),
                Some(rel) => match lib.url {
                    Some(base) => seq![
                        TaskView {
                            url: legacy_url(base@, rel),
                            path: dir + "/"@ + rel,
                            sha1: Seq::<char>::empty(),
                        },
                    ],
                    None => seq![
                        TaskView {
                            url: "https://libraries.minecraft.net/"@ + rel,
                            path: dir + "/"@ + rel,
                            sha1: Seq::<char>::empty(),
                        },
                    ],
                },
            },
        }
    }
}

fn join_dir(dir: &str, rel: &str) -> (r: String)
    ensures
        r@ == dir@ + "/"@ + rel@,
{
    let mut s = dir.to_owned();
    s.append("/");
    s.append(rel);
    proof {
        assert(s@ =~= dir@ + "/"@ + rel@);
    }
    s
}

/// Expand one declared library into its concrete tasks on the platform.
pub fn resolve_library(lib: &Library, platform: &Platform, libraries_dir: &str) -> (r: Vec<
    DownloadTask,
>)
    ensures
        r@.map_values(|t: DownloadTask| t@) == resolve_spec(*lib, *platform, libraries_dir@),
{
    let ghost goal = resolve_spec(*lib, *platform, libraries_dir@);
    let mut out: Vec<DownloadTask> = Vec::new();
    if !should_use_library(lib, platform) {
        proof {
            assert(out@.map_values(|t: DownloadTask| t@) =~= goal);
        }
        return out;
    }
    match &lib.downloads {
        Some(d) => {
            match &d.artifact {
                Some(a) => {
                    out.push(
                        DownloadTask {
                            url: a.url.clone(),
                            path: join_dir(libraries_dir, a.path.as_str()),
                            sha1: a.sha1.clone(),
                        },
                    );
                },
                None => {},
            }
            match &lib.natives {
                Some(nmap) => {
                    match lookup_native_idx(nmap, platform.os_name.as_str()) {
                        Some(i) => {
                            let key = crate::strutil::substitute_arch(
                                nmap[i].1.as_str(),
                                platform.arch.as_str(),
                            );
                            match lookup_classifier_idx(&d.classifiers, key.as_str()) {
                                Some(j) => {
                                    let art = &d.classifiers[j].1;
                                    out.push(
                                        DownloadTask {
                                            url: art.url.clone(),
                                            path: join_dir(libraries_dir, art.path.as_str()),
                                            sha1: art.sha1.clone(),
                                        },
                                    );
                                },
                                None => {},
                            }
                        },
                        None => {},
                    }
                },
                None => {},
            }
            proof {
                assert(out@.map_values(|t: DownloadTask| t@) =~= goal);
            }
            out
        },
        None => {
            match library_name_to_path(lib.name.as_str()) {
                None => {
                    proof {
                        assert(out@.map_values(|t: DownloadTask| t@) =~= goal);
                    }
                    out
                },
                Some(rel) => {
                    let url = match &lib.url {
                        Some(base) => {
                            let bn = base.as_str().unicode_len();
                            if bn > 0 && base.as_str().get_char(bn - 1) == '/' {
                                let mut u = base.clone();
                                u.append(rel.as_str());
                                u
                            } else {
                                join_dir(base.as_str(), rel.as_str())
                            }
                        },
                        None => {
                            let mut u = String::new();
                            u.append("https://libraries.minecraft.net/");
                            u.append(rel.as_str());
                            proof {
                                assert(u@ =~= "https://libraries.minecraft.net/"@ + rel@);
                            }
                            u
                        },
                    };
                    let path = join_dir(libraries_dir, rel.as_str());
                    let mut sha = String::new();
                    out.push(DownloadTask { url, path, sha1: sha });
                    proof {
                        assert(out@.map_values(|t: DownloadTask| t@) =~= goal);
                    }
                    out
                },
            }
        },
    }
}

/// The tasks of a whole declared library list, in declaration order.
pub open spec fn collect_spec(libs: Seq<Library>, p: Platform, dir: Seq<char>) -> Seq<TaskView>
    decreases libs.len(),
{
    if libs.len() == 0 {
        Seq::<TaskView>::empty()
    } else {
        collect_spec(libs.drop_last(), p, dir) + resolve_spec(libs.last(), p, dir)
    }
}

/// Expand every applicable library of a version into tasks.
pub fn collect_library_downloads(
    version: &VersionDetails,
    platform: &Platform,
    libraries_dir: &str,
) -> (r: Vec<DownloadTask>)
    ensures
        r@.map_values(|t: DownloadTask| t@) == collect_spec(
            version.libraries@,
            *platform,
            libraries_dir@,
        ),
{
    let libs = &version.libraries;
    let n = libs.len();
    let mut out: Vec<DownloadTask> = Vec::new();
    let mut i: usize = 0;
    proof {
        assert(out@.map_values(|t: DownloadTask| t@) =~= collect_spec(
            libs@.subrange(0, 0),
            *platform,
            libraries_dir@,
        ));
    }
    while i < n
        invariant
            i <= n,
            n == libs@.len(),
            libs == &version.libraries,
            out@.map_values(|t: DownloadTask| t@) == collect_spec(
                libs@.subrange(0, i as int),
                *platform,
                libraries_dir@,
            ),
        decreases n - i,
    {
        let mut tasks = resolve_library(&libs[i], platform, libraries_dir);
        let ghost before = out@;
        let ghost added = tasks@;
        out.append(&mut tasks);
        proof {
            let pre = libs@.subrange(0, i as int);
            let post = libs@.subrange(0, i as int + 1);
            assert(post.drop_last() =~= pre);
            assert(post.last() == libs@[i as int]);
            assert(out@ =~= before + added);
            assert(out@.map_values(|t: DownloadTask| t@) =~= before.map_values(
                |t: DownloadTask| t@,
            ) + added.map_values(|t: DownloadTask| t@));
            assert(out@.map_values(|t: DownloadTask| t@) =~= collect_spec(
                post,
                *platform,
                libraries_dir@,
            ));
        }
        i += 1;
    }
    proof {
        assert(libs@.subrange(0, n as int) =~= libs@);
    }
    out
}

/// Platform filtering, exclusion half: a library whose rules exclude the
/// platform contributes no task at all.
pub proof fn lemma_excluded_library_yields_nothing(lib: Library, p: Platform, dir: Seq<char>)
    requires
        !library_applies(lib, p),
    ensures
        resolve_spec(lib, p, dir).len() == 0,
{
}

/// Platform filtering, inclusion half: a library with no rule set always
/// applies, and contributes at least one task whenever it has something
/// to offer — a structured generic artifact, or a well-formed 3- or
/// 4-part coordinate to derive a path from. (A library whose structured
/// descriptors hold no generic artifact and no matching native classifier
/// contributes none, as does one whose coordinate is malformed.)
pub proof fn lemma_unrestricted_library_yields_task(lib: Library, p: Platform, dir: Seq<char>)
    requires
        lib.rules is None,
        match lib.downloads {
            Some(d) => d.artifact is Some,
            None => coord_path(lib.name@) is Some,
        },
    ensures
        resolve_spec(lib, p, dir).len() >= 1,
{
    assert(library_applies(lib, p));
}

} // verus!

