//! The compiled-in example catalog: listing with language and tier filters,
//! and scaffolding a new template project from an example.

use vstd::prelude::*;
use vstd::string::StringExecFns;
use crate::model::GolemError;
use crate::text::chars_to_string;
use crate::text::push_string;

verus! {

/// Language an example is written in.
#[derive(Clone, Copy, Debug, PartialEq, Eq, Structural)]
pub enum GuestLanguage {
    Rust,
    Go,
    C,
    JavaScript,
    TypeScript,
    Python,
}

/// One piece of a file template: either literal text or a placeholder
/// substituted at scaffold time.
pub enum Segment {
    Lit(String),
    TemplateName,
    PackageName,
}

/// A file of an example: its path below the target directory and its
/// content, both given as substitutable templates.
pub struct FileTemplate {
    pub path: Vec<Segment>,
    pub content: Vec<Segment>,
}

/// One record of the example catalog.
pub struct Example {
    pub name: String,
    pub language: GuestLanguage,
    pub tier: u8,
    pub description: String,
    pub files: Vec<FileTemplate>,
}

/// A scaffolded file, ready to be written to disk.
pub struct ScaffoldFile {
    pub path: String,
    pub content: String,
}

/// What the `new` command asks the file system layer to create: the target
/// directory and the expanded files below it.
pub struct ScaffoldPlan {
    pub target_dir: String,
    pub files: Vec<ScaffoldFile>,
}

/// What one segment expands to, given the chosen template and package names.
pub open spec fn spec_segment(s: Segment, tname: Seq<char>, pname: Seq<char>) -> Seq<char> {
    match s {
        Segment::Lit(l) => l@,
        Segment::TemplateName => tname,
        Segment::PackageName => pname,
    }
}

/// What a whole template expands to: the concatenation of its expanded
/// segments.
pub open spec fn spec_expand(segs: Seq<Segment>, tname: Seq<char>, pname: Seq<char>) -> Seq<char>
    decreases segs.len(),
{
    if segs.len() == 0 {
        Seq::empty()
    } else {
        spec_segment(segs.first(), tname, pname) + spec_expand(segs.drop_first(), tname, pname)
    }
}

/// Expands a file template with the chosen template and package names.
pub fn expand(segs: &Vec<Segment>, tname: &String, pname: &String) -> (r: String)
    ensures
        r@ == spec_expand(segs@, tname@, pname@),
{
    let mut out: Vec<char> = Vec::new();
    proof {
        assert(segs@.skip(0) =~= segs@);
        assert(Seq::<char>::empty() + spec_expand(segs@, tname@, pname@) =~= spec_expand(
            segs@,
            tname@,
            pname@,
        ));
    }
    let mut i: usize = 0;
    while i < segs.len()
        invariant
            i <= segs@.len(),
            spec_expand(segs@, tname@, pname@) == out@ + spec_expand(
                segs@.skip(i as int),
                tname@,
                pname@,
            ),
        decreases segs@.len() - i,
    {
        proof {
            assert(segs@.skip(i as int).len() > 0);
            assert(segs@.skip(i as int).first() == segs@[i as int]);
            assert(segs@.skip(i as int).drop_first() =~= segs@.skip(i + 1 as int));
        }
        let ghost prev = out@;
        match &segs[i] {
            Segment::Lit(l) => push_string(&mut out, l),
            Segment::TemplateName => push_string(&mut out, tname),
            Segment::PackageName => push_string(&mut out, pname),
        }
        proof {
            assert((prev + spec_segment(segs@[i as int], tname@, pname@)) + spec_expand(
                segs@.skip(i + 1 as int),
                tname@,
                pname@,
            ) =~= prev + (spec_segment(segs@[i as int], tname@, pname@) + spec_expand(
                segs@.skip(i + 1 as int),
                tname@,
                pname@,
            )));
        }
        i = i + 1;
    }
    proof {
        assert(segs@.skip(segs@.len() as int) =~= Seq::<Segment>::empty());
    }
    chars_to_string(&out)
}

/// Whether an example passes the list filters: the language must match where
/// one is given, and the tier number must be at most `min_tier` where one is
/// given.
pub open spec fn spec_example_kept(
    e: Example,
    min_tier: Option<u8>,
    language: Option<GuestLanguage>,
) -> bool {
    (match language {
        Option::Some(l) => e.language == l,
        Option::None => true,
    }) && (match min_tier {
        Option::Some(t) => e.tier <= t,
        Option::None => true,
    })
}

/// The catalog entries that pass the filters, in catalog order.
pub open spec fn spec_filter_examples(
    s: Seq<Example>,
    min_tier: Option<u8>,
    language: Option<GuestLanguage>,
) -> Seq<Example>
    decreases s.len(),
{
    if s.len() == 0 {
        Seq::empty()
    } else {
        let pre = spec_filter_examples(s.drop_last(), min_tier, language);
        if spec_example_kept(s.last(), min_tier, language) {
            pre.push(s.last())
        } else {
            pre
        }
    }
}

/// Lists the catalog entries that pass the filters, keeping catalog order.
pub fn list_examples(
    catalog: Vec<Example>,
    min_tier: Option<u8>,
    language: Option<GuestLanguage>,
) -> (r: Vec<Example>)
    ensures
        r@ == spec_filter_examples(catalog@, min_tier, language),
{
    let ghost orig = catalog@;
    let mut out: Vec<Example> = Vec::new();
    let mut rest = catalog;
    let n = rest.len();
    let mut taken: usize = 0;
    while taken < n
        invariant
            taken <= n,
            n == orig.len(),
            rest@ == orig.skip(taken as int),
            out@ == spec_filter_examples(orig.take(taken as int), min_tier, language),
        decreases n - taken,
    {
        let e = rest.remove(0);
        proof {
            assert(e == orig[taken as int]);
            assert(orig.take(taken + 1 as int).drop_last() =~= orig.take(taken as int));
            assert(orig.take(taken + 1 as int).last() == orig[taken as int]);
            assert(orig.skip(taken as int).remove(0) =~= orig.skip(taken + 1 as int));
        }
        let keep_language = match language {
            Option::Some(l) => e.language == l,
            Option::None => true,
        };
        let keep_tier = match min_tier {
            Option::Some(t) => e.tier <= t,
            Option::None => true,
        };
        if keep_language && keep_tier {
            out.push(e);
        }
        taken = taken + 1;
    }
    proof {
        assert(orig.take(n as int) =~= orig);
    }
    out
}

/// The first catalog entry with the given name.
pub open spec fn spec_find_example(s: Seq<Example>, name: Seq<char>) -> Option<int>
    decreases s.len(),
{
    if s.len() == 0 {
        Option::None
    } else if s.first().name@ == name {
        Option::Some(0int)
    } else {
        match spec_find_example(s.drop_first(), name) {
            Option::Some(i) => Option::Some(i + 1),
            Option::None => Option::None,
        }
    }
}

/// The package name used for substitution: the `--package-name` value where
/// one was given, otherwise the template name itself.
pub open spec fn spec_package_name(package: Option<Seq<char>>, tname: Seq<char>) -> Seq<char> {
    match package {
        Option::Some(p) => p,
        Option::None => tname,
    }
}

/// Index of the first catalog entry with the given name, `None` if the
/// example is unknown.
pub fn find_example(catalog: &Vec<Example>, name: &String) -> (r: Option<usize>)
    ensures
        match r {
            Option::Some(i) => spec_find_example(catalog@, name@) == Option::Some(i as int) && i
                < catalog@.len(),
            Option::None => spec_find_example(catalog@, name@) is None,
        },
{
    let mut i: usize = 0;
    while i < catalog.len()
        invariant
            i <= catalog@.len(),
            forall|j: int| 0 <= j < i ==> catalog@[j].name@ != name@,
        decreases catalog@.len() - i,
    {
        if crate::text::str_eq(&catalog[i].name, name.as_str()) {
            proof {
                lemma_find_example_step(catalog@, name@, i as int);
            }
            return Some(i);
        }
        i = i + 1;
    }
    proof {
        lemma_find_example_none(catalog@, name@);
    }
    None
}

/// Where every entry before `i` misses the name and entry `i` hits it, the
/// first hit is `i`.
proof fn lemma_find_example_step(s: Seq<Example>, name: Seq<char>, i: int)
    requires
        0 <= i < s.len(),
        forall|j: int| 0 <= j < i ==> s[j].name@ != name,
    ensures
        s[i].name@ == name ==> spec_find_example(s, name) == Option::Some(i),
    decreases s.len(),
{
    if s.len() > 0 && s.first().name@ != name && i > 0 {
        lemma_find_example_step(s.drop_first(), name, i - 1);
        assert(s.drop_first()[i - 1] == s[i]);
    }
}

/// Where no entry carries the name, there is no first hit.
proof fn lemma_find_example_none(s: Seq<Example>, name: Seq<char>)
    requires
        forall|j: int| 0 <= j < s.len() ==> s[j].name@ != name,
    ensures
        spec_find_example(s, name) is None,
    decreases s.len(),
{
    if s.len() > 0 {
        lemma_find_example_none(s.drop_first(), name);
    }
}

/// What a successful scaffold must look like: the target directory carries
/// the template name, and every file of the example is expanded with the
/// chosen template and package names.
pub open spec fn spec_scaffold_ok(
    catalog: Seq<Example>,
    example: Seq<char>,
    tname: Seq<char>,
    package: Option<Seq<char>>,
    plan: ScaffoldPlan,
) -> bool {
    let e = catalog[spec_find_example(catalog, example).unwrap()];
    let pname = spec_package_name(package, tname);
    &&& plan.target_dir@ == tname
    &&& plan.files@.len() == e.files@.len()
    &&& forall|i: int|
        0 <= i < e.files@.len() ==> #[trigger] plan.files@[i].path@ == spec_expand(
            e.files@[i].path@,
            tname,
            pname,
        ) && plan.files@[i].content@ == spec_expand(e.files@[i].content@, tname, pname)
}

/// Scaffolds a new project from the catalog: locates the example, refuses an
/// existing target directory, and expands every file template with the
/// chosen template and package names. `target_exists` reports whether
/// `./<template_name>/` is already present on disk.
pub fn process_new(
    catalog: &Vec<Example>,
    example: &String,
    template_name: &String,
    package_name: &Option<String>,
    target_exists: bool,
) -> (r: Result<ScaffoldPlan, GolemError>)
    ensures
        spec_find_example(catalog@, example@) is None <==> (r matches Err(
            GolemError::NotFound(m),
        ) && m@ == example@),
        spec_find_example(catalog@, example@) is Some && target_exists <==> (r matches Err(
            GolemError::AlreadyExists(m),
        ) && m@ == template_name@),
        r matches Ok(plan) ==> spec_scaffold_ok(
            catalog@,
            example@,
            template_name@,
            match package_name {
                Option::Some(p) => Option::Some(p@),
                Option::None => Option::None,
            },
            plan,
        ),
        r is Ok <==> spec_find_example(catalog@, example@) is Some && !target_exists,
{
    let found = find_example(catalog, example);
    match found {
        Option::None => Err(GolemError::NotFound(example.clone())),
        Option::Some(i) => {
            if target_exists {
                Err(GolemError::AlreadyExists(template_name.clone()))
            } else {
                let pname: String = match package_name {
                    Option::Some(p) => p.clone(),
                    Option::None => template_name.clone(),
                };
                let e = &catalog[i];
                let mut files: Vec<ScaffoldFile> = Vec::new();
                let mut k: usize = 0;
                while k < e.files.len()
                    invariant
                        k <= e.files@.len(),
                        pname@ == spec_package_name(
                            match package_name {
                                Option::Some(p) => Option::Some(p@),
                                Option::None => Option::None,
                            },
                            template_name@,
                        ),
                        e == &catalog@[spec_find_example(catalog@, example@).unwrap()],
                        files@.len() == k,
                        forall|j: int|
                            0 <= j < k ==> #[trigger] files@[j].path@ == spec_expand(
                                e.files@[j].path@,
                                template_name@,
                                pname@,
                            ) && files@[j].content@ == spec_expand(
                                e.files@[j].content@,
                                template_name@,
                                pname@,
                            ),
                    decreases e.files@.len() - k,
                {
                    let path = expand(&e.files[k].path, template_name, &pname);
                    let content = expand(&e.files[k].content, template_name, &pname);
                    files.push(ScaffoldFile { path, content });
                    k = k + 1;
                }
                Ok(ScaffoldPlan { target_dir: template_name.clone(), files })
            }
        },
    }
}

/// The message confirming a scaffold: the created directory.
pub fn scaffold_result(plan: &ScaffoldPlan) -> (r: crate::model::GolemResult)
    ensures
        r matches crate::model::GolemResult::Str(s) && s@ == "created "@ + plan.target_dir@
            + "/"@,
{
    let mut out: Vec<char> = Vec::new();
    crate::text::push_chars(&mut out, "created ");
    push_string(&mut out, &plan.target_dir);
    crate::text::push_chars(&mut out, "/");
    crate::model::GolemResult::Str(chars_to_string(&out))
}

/// One literal segment.
fn lit(s: &str) -> (r: Segment)
    ensures
        r matches Segment::Lit(l) && l@ == s@,
{
    Segment::Lit(String::from_str(s))
}

/// One catalog entry.
fn entry(name: &str, language: GuestLanguage, tier: u8, description: &str, files: Vec<
    FileTemplate,
>) -> (r: Example)
    ensures
        r.name@ == name@,
        r.language == language,
        r.tier == tier,
        r.description@ == description@,
        r.files == files,
{
    Example {
        name: String::from_str(name),
        language,
        tier,
        description: String::from_str(description),
        files,
    }
}

/// Expanding a single literal segment yields the literal, whatever the
/// chosen names.
proof fn lemma_expand_one(segs: Seq<Segment>, l0: Seq<char>, tname: Seq<char>, pname: Seq<char>)
    requires
        segs.len() == 1,
        (segs[0] matches Segment::Lit(s) && s@ == l0),
    ensures
        spec_expand(segs, tname, pname) == l0,
{
    assert(segs.drop_first() =~= Seq::<Segment>::empty());
    assert(spec_expand(segs, tname, pname) == spec_segment(segs[0], tname, pname) + spec_expand(
        segs.drop_first(),
        tname,
        pname,
    ));
    assert(spec_expand(segs.drop_first(), tname, pname) == Seq::<char>::empty());
    assert(l0 + Seq::<char>::empty() =~= l0);
}

/// Expanding literal–package–literal yields the literals around the chosen
/// package name.
proof fn lemma_expand_package(
    segs: Seq<Segment>,
    l0: Seq<char>,
    l2: Seq<char>,
    tname: Seq<char>,
    pname: Seq<char>,
)
    requires
        segs.len() == 3,
        (segs[0] matches Segment::Lit(s) && s@ == l0),
        segs[1] is PackageName,
        (segs[2] matches Segment::Lit(s) && s@ == l2),
    ensures
        spec_expand(segs, tname, pname) == l0 + pname + l2,
{
    let s1 = segs.drop_first();
    let s2 = s1.drop_first();
    assert(s1[0] == segs[1]);
    assert(s2[0] == segs[2]);
    assert(s2.len() == 1);
    assert(s2.drop_first() =~= Seq::<Segment>::empty());
    assert(spec_expand(s2, tname, pname) == spec_segment(segs[2], tname, pname) + spec_expand(
        s2.drop_first(),
        tname,
        pname,
    ));
    assert(spec_expand(s1, tname, pname) == spec_segment(segs[1], tname, pname) + spec_expand(
        s2,
        tname,
        pname,
    ));
    assert(spec_expand(segs, tname, pname) =~= l0 + pname + l2);
}

/// Expanding literal–template–literal yields the literals around the
/// chosen template name.
proof fn lemma_expand_template(
    segs: Seq<Segment>,
    l0: Seq<char>,
    l2: Seq<char>,
    tname: Seq<char>,
    pname: Seq<char>,
)
    requires
        segs.len() == 3,
        (segs[0] matches Segment::Lit(s) && s@ == l0),
        segs[1] is TemplateName,
        (segs[2] matches Segment::Lit(s) && s@ == l2),
    ensures
        spec_expand(segs, tname, pname) == l0 + tname + l2,
{
    let s1 = segs.drop_first();
    let s2 = s1.drop_first();
    assert(s1[0] == segs[1]);
    assert(s2[0] == segs[2]);
    assert(s2.len() == 1);
    assert(s2.drop_first() =~= Seq::<Segment>::empty());
    assert(spec_expand(s2, tname, pname) == spec_segment(segs[2], tname, pname) + spec_expand(
        s2.drop_first(),
        tname,
        pname,
    ));
    assert(spec_expand(s1, tname, pname) == spec_segment(segs[1], tname, pname) + spec_expand(
        s2,
        tname,
        pname,
    ));
    assert(spec_expand(segs, tname, pname) =~= l0 + tname + l2);
}

/// Expanding literal–template–literal–template–literal yields the literals
/// around the chosen template name, twice.
proof fn lemma_expand_template_twice(
    segs: Seq<Segment>,
    l0: Seq<char>,
    l2: Seq<char>,
    l4: Seq<char>,
    tname: Seq<char>,
    pname: Seq<char>,
)
    requires
        segs.len() == 5,
        (segs[0] matches Segment::Lit(s) && s@ == l0),
        segs[1] is TemplateName,
        (segs[2] matches Segment::Lit(s) && s@ == l2),
        segs[3] is TemplateName,
        (segs[4] matches Segment::Lit(s) && s@ == l4),
    ensures
        spec_expand(segs, tname, pname) == l0 + tname + l2 + tname + l4,
{
    let s1 = segs.drop_first();
    let s2 = s1.drop_first();
    let s3 = s2.drop_first();
    let s4 = s3.drop_first();
    assert(s1[0] == segs[1] && s2[0] == segs[2] && s3[0] == segs[3] && s4[0] == segs[4]);
    assert(s4.len() == 1);
    assert(s4.drop_first() =~= Seq::<Segment>::empty());
    assert(spec_expand(s4, tname, pname) == spec_segment(segs[4], tname, pname) + spec_expand(
        s4.drop_first(),
        tname,
        pname,
    ));
    assert(spec_expand(s3, tname, pname) == spec_segment(segs[3], tname, pname) + spec_expand(
        s4,
        tname,
        pname,
    ));
    assert(spec_expand(s2, tname, pname) == spec_segment(segs[2], tname, pname) + spec_expand(
        s3,
        tname,
        pname,
    ));
    assert(spec_expand(s1, tname, pname) == spec_segment(segs[1], tname, pname) + spec_expand(
        s2,
        tname,
        pname,
    ));
    assert(spec_expand(segs, tname, pname) =~= l0 + tname + l2 + tname + l4);
}

/// The compiled-in example catalog: one starter per supported language,
/// each file template substituting the chosen template and package names.
/// The contract pins every entry and the exact expansion of the Rust
/// starter's files.
pub fn builtin_catalog() -> (r: Vec<Example>)
    ensures
        r@.len() == 5,
        r@[0].name@ == "rust-hello"@ && r@[0].language == GuestLanguage::Rust && r@[0].tier == 1
            && r@[0].description@ == "a minimal Rust worker"@,
        r@[1].name@ == "go-hello"@ && r@[1].language == GuestLanguage::Go && r@[1].tier == 2
            && r@[1].description@ == "a minimal Go worker"@,
        r@[2].name@ == "c-hello"@ && r@[2].language == GuestLanguage::C && r@[2].tier == 2
            && r@[2].description@ == "a minimal C worker"@,
        r@[3].name@ == "js-echo"@ && r@[3].language == GuestLanguage::JavaScript && r@[3].tier == 2
            && r@[3].description@ == "an echoing JavaScript worker"@,
        r@[4].name@ == "python-hello"@ && r@[4].language == GuestLanguage::Python && r@[4].tier
            == 3 && r@[4].description@ == "a minimal Python worker"@,
        r@[0].files@.len() == 2,
        forall|t: Seq<char>, p: Seq<char>| #[trigger]
            spec_expand(r@[0].files@[0].path@, t, p) == "Cargo.toml"@,
        forall|t: Seq<char>, p: Seq<char>| #[trigger]
            spec_expand(r@[0].files@[0].content@, t, p) == "[package]\nname = \""@ + p
                + "\"\nversion = \"0.1.0\"\n"@,
        forall|t: Seq<char>, p: Seq<char>| #[trigger]
            spec_expand(r@[0].files@[1].path@, t, p) == "src/lib.rs"@,
        forall|t: Seq<char>, p: Seq<char>| #[trigger]
            spec_expand(r@[0].files@[1].content@, t, p) == "// "@ + t
                + ": say hello\npub fn hello() -> &'static str {\n    \"Hello, "@ + t + "!\"\n}\n"@,
        r@[1].files@.len() == 1,
        forall|t: Seq<char>, p: Seq<char>| #[trigger]
            spec_expand(r@[1].files@[0].path@, t, p) == "main.go"@,
        forall|t: Seq<char>, p: Seq<char>| #[trigger]
            spec_expand(r@[1].files@[0].content@, t, p) == "package main // "@ + p + "\n"@,
        r@[2].files@.len() == 1,
        forall|t: Seq<char>, p: Seq<char>| #[trigger]
            spec_expand(r@[2].files@[0].path@, t, p) == "main.c"@,
        forall|t: Seq<char>, p: Seq<char>| #[trigger]
            spec_expand(r@[2].files@[0].content@, t, p) == "/* "@ + t
                + " */\nint main(void) { return 0; }\n"@,
        r@[3].files@.len() == 1,
        forall|t: Seq<char>, p: Seq<char>| #[trigger]
            spec_expand(r@[3].files@[0].path@, t, p) == "index.js"@,
        forall|t: Seq<char>, p: Seq<char>| #[trigger]
            spec_expand(r@[3].files@[0].content@, t, p) == "// "@ + t
                + "\nmodule.exports = {};\n"@,
        r@[4].files@.len() == 1,
        forall|t: Seq<char>, p: Seq<char>| #[trigger]
            spec_expand(r@[4].files@[0].path@, t, p) == "main.py"@,
        forall|t: Seq<char>, p: Seq<char>| #[trigger]
            spec_expand(r@[4].files@[0].content@, t, p) == "# "@ + t + "\n"@,
{
    let mut catalog: Vec<Example> = Vec::new();

    let mut rust_files: Vec<FileTemplate> = Vec::new();
    let mut p0: Vec<Segment> = Vec::new();
    p0.push(lit("Cargo.toml"));
    let mut c0: Vec<Segment> = Vec::new();
    c0.push(lit("[package]\nname = \""));
    c0.push(Segment::PackageName);
    c0.push(lit("\"\nversion = \"0.1.0\"\n"));
    let ghost p0v = p0@;
    let ghost c0v = c0@;
    rust_files.push(FileTemplate { path: p0, content: c0 });
    let mut p1: Vec<Segment> = Vec::new();
    p1.push(lit("src/lib.rs"));
    let mut c1: Vec<Segment> = Vec::new();
    c1.push(lit("// "));
    c1.push(Segment::TemplateName);
    c1.push(lit(": say hello\npub fn hello() -> &'static str {\n    \"Hello, "));
    c1.push(Segment::TemplateName);
    c1.push(lit("!\"\n}\n"));
    let ghost p1v = p1@;
    let ghost c1v = c1@;
    rust_files.push(FileTemplate { path: p1, content: c1 });
    let ghost rustv = rust_files@;
    proof {
        assert forall|t: Seq<char>, p: Seq<char>| #[trigger]
            spec_expand(rustv[0].path@, t, p) == "Cargo.toml"@ by {
            lemma_expand_one(p0v, "Cargo.toml"@, t, p);
        }
        assert forall|t: Seq<char>, p: Seq<char>| #[trigger]
            spec_expand(rustv[0].content@, t, p) == "[package]\nname = \""@ + p
                + "\"\nversion = \"0.1.0\"\n"@ by {
            lemma_expand_package(c0v, "[package]\nname = \""@, "\"\nversion = \"0.1.0\"\n"@, t, p);
        }
        assert forall|t: Seq<char>, p: Seq<char>| #[trigger]
            spec_expand(rustv[1].path@, t, p) == "src/lib.rs"@ by {
            lemma_expand_one(p1v, "src/lib.rs"@, t, p);
        }
        assert forall|t: Seq<char>, p: Seq<char>| #[trigger]
            spec_expand(rustv[1].content@, t, p) == "// "@ + t
                + ": say hello\npub fn hello() -> &'static str {\n    \"Hello, "@ + t
                + "!\"\n}\n"@ by {
            lemma_expand_template_twice(
                c1v,
                "// "@,
                ": say hello\npub fn hello() -> &'static str {\n    \"Hello, "@,
                "!\"\n}\n"@,
                t,
                p,
            );
        }
    }
    catalog.push(
        entry("rust-hello", GuestLanguage::Rust, 1, "a minimal Rust worker", rust_files),
    );

    let mut go_files: Vec<FileTemplate> = Vec::new();
    let mut gp: Vec<Segment> = Vec::new();
    gp.push(lit("main.go"));
    let mut gc: Vec<Segment> = Vec::new();
    gc.push(lit("package main // "));
    gc.push(Segment::PackageName);
    gc.push(lit("\n"));
    let ghost gpv = gp@;
    let ghost gcv = gc@;
    go_files.push(FileTemplate { path: gp, content: gc });
    let ghost gov = go_files@;
    proof {
        assert forall|t: Seq<char>, p: Seq<char>| #[trigger]
            spec_expand(gov[0].path@, t, p) == "main.go"@ by {
            lemma_expand_one(gpv, "main.go"@, t, p);
        }
        assert forall|t: Seq<char>, p: Seq<char>| #[trigger]
            spec_expand(gov[0].content@, t, p) == "package main // "@ + p + "\n"@ by {
            lemma_expand_package(gcv, "package main // "@, "\n"@, t, p);
        }
    }
    catalog.push(entry("go-hello", GuestLanguage::Go, 2, "a minimal Go worker", go_files));

    let mut c_files: Vec<FileTemplate> = Vec::new();
    let mut cp: Vec<Segment> = Vec::new();
    cp.push(lit("main.c"));
    let mut cc: Vec<Segment> = Vec::new();
    cc.push(lit("/* "));
    cc.push(Segment::TemplateName);
    cc.push(lit(" */\nint main(void) { return 0; }\n"));
    let ghost cpv = cp@;
    let ghost ccv = cc@;
    c_files.push(FileTemplate { path: cp, content: cc });
    let ghost cfv = c_files@;
    proof {
        assert forall|t: Seq<char>, p: Seq<char>| #[trigger]
            spec_expand(cfv[0].path@, t, p) == "main.c"@ by {
            lemma_expand_one(cpv, "main.c"@, t, p);
        }
        assert forall|t: Seq<char>, p: Seq<char>| #[trigger]
            spec_expand(cfv[0].content@, t, p) == "/* "@ + t
                + " */\nint main(void) { return 0; }\n"@ by {
            lemma_expand_template(ccv, "/* "@, " */\nint main(void) { return 0; }\n"@, t, p);
        }
    }
    catalog.push(entry("c-hello", GuestLanguage::C, 2, "a minimal C worker", c_files));

    let mut js_files: Vec<FileTemplate> = Vec::new();
    let mut jp: Vec<Segment> = Vec::new();
    jp.push(lit("index.js"));
    let mut jc: Vec<Segment> = Vec::new();
    jc.push(lit("// "));
    jc.push(Segment::TemplateName);
    jc.push(lit("\nmodule.exports = {};\n"));
    let ghost jpv = jp@;
    let ghost jcv = jc@;
    js_files.push(FileTemplate { path: jp, content: jc });
    let ghost jfv = js_files@;
    proof {
        assert forall|t: Seq<char>, p: Seq<char>| #[trigger]
            spec_expand(jfv[0].path@, t, p) == "index.js"@ by {
            lemma_expand_one(jpv, "index.js"@, t, p);
        }
        assert forall|t: Seq<char>, p: Seq<char>| #[trigger]
            spec_expand(jfv[0].content@, t, p) == "// "@ + t + "\nmodule.exports = {};\n"@ by {
            lemma_expand_template(jcv, "// "@, "\nmodule.exports = {};\n"@, t, p);
        }
    }
    catalog.push(
        entry("js-echo", GuestLanguage::JavaScript, 2, "an echoing JavaScript worker", js_files),
    );

    let mut py_files: Vec<FileTemplate> = Vec::new();
    let mut yp: Vec<Segment> = Vec::new();
    yp.push(lit("main.py"));
    let mut yc: Vec<Segment> = Vec::new();
    yc.push(lit("# "));
    yc.push(Segment::TemplateName);
    yc.push(lit("\n"));
    let ghost ypv = yp@;
    let ghost ycv = yc@;
    py_files.push(FileTemplate { path: yp, content: yc });
    let ghost yfv = py_files@;
    proof {
        assert forall|t: Seq<char>, p: Seq<char>| #[trigger]
            spec_expand(yfv[0].path@, t, p) == "main.py"@ by {
            lemma_expand_one(ypv, "main.py"@, t, p);
        }
        assert forall|t: Seq<char>, p: Seq<char>| #[trigger]
            spec_expand(yfv[0].content@, t, p) == "# "@ + t + "\n"@ by {
            lemma_expand_template(ycv, "# "@, "\n"@, t, p);
        }
    }
    catalog.push(
        entry("python-hello", GuestLanguage::Python, 3, "a minimal Python worker", py_files),
    );

    catalog
}

} // verus!
