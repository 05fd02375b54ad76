//! The template handler: planning of template API calls, interpretation of
//! their typed answers, and resolution of a human template name to the
//! server-assigned identifier, with an in-process cache.

use vstd::prelude::*;
use crate::api::HttpCall;
use crate::api::Method;
use crate::api::RequestBody;
use crate::api::query_pair;
use crate::api::template_path;
use crate::api::templates_path;
use crate::model::GolemError;
use crate::model::GolemResult;
use crate::model::Renderable;
use crate::model::Template;
use crate::model::TemplateId;
use crate::text::str_eq;

verus! {

/// A template given either by its server identifier or by its human name;
/// a name is resolved before any call that needs the identifier.
pub enum TemplateRef {
    Id(String),
    Name(String),
}

/// The subcommands of the `template` noun.
pub enum TemplateSubcommand {
    /// Upload a new template under a name.
    Add { template_name: String, template_file: String },
    /// Upload a new version of a template.
    Update { template_ref: TemplateRef, template_file: String },
    /// List templates, optionally filtered by name.
    List { template_name: Option<String> },
    /// Fetch the latest version of a template.
    Get { template_ref: TemplateRef },
}

/// Plans the list call: `GET /v2/templates`, with a `template-name` filter
/// where one was given.
pub fn template_list_request(filter: &Option<String>) -> (c: HttpCall)
    ensures
        c.method == Method::Get,
        c.path@ == crate::api::spec_templates_path(),
        c.body is Empty,
        match filter {
            Option::Some(n) => c.query@.len() == 1 && c.query@[0].0@ == "template-name"@
                && c.query@[0].1@ == n@,
            Option::None => c.query@.len() == 0,
        },
{
    let mut query: Vec<(String, String)> = Vec::new();
    match filter {
        Option::Some(n) => {
            query.push(query_pair("template-name", n.clone()));
        },
        Option::None => {},
    }
    HttpCall { method: Method::Get, path: templates_path(), query, body: RequestBody::Empty }
}

/// Plans the fetch of a template's latest version:
/// `GET /v2/templates/{id}/latest`.
pub fn template_get_request(id: &String) -> (c: HttpCall)
    ensures
        c.method == Method::Get,
        c.path@ == crate::api::spec_template_path(id@) + "/latest"@,
        c.query@.len() == 0,
        c.body is Empty,
{
    HttpCall {
        method: Method::Get,
        path: template_path(id, "/latest"),
        query: Vec::new(),
        body: RequestBody::Empty,
    }
}

/// Plans the upload of a new template: `POST /v2/templates`, the binary
/// streamed from the local file. The file must have been found readable;
/// an unreadable file is refused before any call is planned.
pub fn template_add_request(name: &String, file: &String, file_readable: bool) -> (r: Result<
    HttpCall,
    GolemError,
>)
    ensures
        r is Ok <==> file_readable,
        !file_readable <==> (r matches Err(GolemError::InvalidConfig(m)) && m@ == file@),
        r matches Ok(c) ==> (c.method == Method::Post && c.path@
            == crate::api::spec_templates_path() && c.query@.len() == 1 && c.query@[0].0@
            == "template-name"@ && c.query@[0].1@ == name@ && (
        c.body matches RequestBody::FileUpload(f) && f@ == file@)),
{
    if !file_readable {
        return Err(GolemError::InvalidConfig(file.clone()));
    }
    let mut query: Vec<(String, String)> = Vec::new();
    query.push(query_pair("template-name", name.clone()));
    Ok(
        HttpCall {
            method: Method::Post,
            path: templates_path(),
            query,
            body: RequestBody::FileUpload(file.clone()),
        },
    )
}

/// Plans the upload of a new version: `PUT /v2/templates/{id}/upload`. The
/// file must have been found readable.
pub fn template_update_request(id: &String, file: &String, file_readable: bool) -> (r: Result<
    HttpCall,
    GolemError,
>)
    ensures
        r is Ok <==> file_readable,
        !file_readable <==> (r matches Err(GolemError::InvalidConfig(m)) && m@ == file@),
        r matches Ok(c) ==> (c.method == Method::Put && c.path@ == crate::api::spec_template_path(
            id@,
        ) + "/upload"@ && c.query@.len() == 0 && (c.body matches RequestBody::FileUpload(f) && f@
            == file@)),
{
    if !file_readable {
        return Err(GolemError::InvalidConfig(file.clone()));
    }
    Ok(
        HttpCall {
            method: Method::Put,
            path: template_path(id, "/upload"),
            query: Vec::new(),
            body: RequestBody::FileUpload(file.clone()),
        },
    )
}

/// Wraps a list of templates decoded from the server answer as the handler
/// result.
pub fn templates_result(ts: Vec<Template>) -> (r: GolemResult)
    ensures
        r == GolemResult::Item(Renderable::Templates(ts)),
{
    GolemResult::Item(Renderable::Templates(ts))
}

/// Wraps one template decoded from the server answer as the handler result.
pub fn template_result(t: Template) -> (r: GolemResult)
    ensures
        r == GolemResult::Item(Renderable::Template(t)),
{
    GolemResult::Item(Renderable::Template(t))
}

/// The distinct identifiers of the templates carrying the given name, in
/// order of first appearance. Several versions of one template share its
/// identifier, so the identifiers are deduplicated.
pub open spec fn spec_matching_ids(ts: Seq<Template>, name: Seq<char>) -> Seq<Seq<char>>
    decreases ts.len(),
{
    if ts.len() == 0 {
        Seq::empty()
    } else {
        let pre = spec_matching_ids(ts.drop_last(), name);
        if ts.last().name.value@ == name && !pre.contains(ts.last().id.value@) {
            pre.push(ts.last().id.value@)
        } else {
            pre
        }
    }
}

/// True iff some element of `v` reads `s`.
fn contains_string(v: &Vec<String>, s: &String) -> (r: bool)
    ensures
        r == exists|j: int| 0 <= j < v@.len() && #[trigger] v@[j]@ == s@,
{
    let mut i: usize = 0;
    while i < v.len()
        invariant
            i <= v@.len(),
            forall|j: int| 0 <= j < i ==> #[trigger] v@[j]@ != s@,
        decreases v@.len() - i,
    {
        if str_eq(&v[i], s.as_str()) {
            return true;
        }
        i = i + 1;
    }
    false
}

/// Resolves a template name against the templates the server listed:
/// `NotFound` when no template carries the name, the identifier when
/// exactly one does, and `Ambiguous` with all candidate identifiers when
/// several do.
pub fn resolve_template_name(templates: &Vec<Template>, name: &String) -> (r: Result<
    TemplateId,
    GolemError,
>)
    ensures
        ({
            let ids = spec_matching_ids(templates@, name@);
            &&& (ids.len() == 0 <==> (r matches Err(e) && e is NotFound))
            &&& (r matches Err(GolemError::NotFound(m)) ==> m@ == name@)
            &&& (ids.len() == 1 <==> (r matches Ok(t) && t.value@ == ids[0]))
            &&& (ids.len() > 1 <==> (r matches Err(e) && e is Ambiguous))
            &&& (r matches Err(GolemError::Ambiguous(c)) ==> c@.map_values(|x: String| x@) == ids)
        }),
{
    let ghost all = templates@;
    let mut ids: Vec<String> = Vec::new();
    let mut i: usize = 0;
    while i < templates.len()
        invariant
            i <= all.len(),
            templates@ == all,
            ids@.map_values(|x: String| x@) == spec_matching_ids(all.take(i as int), name@),
        decreases all.len() - i,
    {
        proof {
            assert(all.take(i + 1 as int).drop_last() =~= all.take(i as int));
            assert(all.take(i + 1 as int).last() == all[i as int]);
        }
        let t = &templates[i];
        let name_hit = str_eq(&t.name.value, name.as_str());
        let dup = contains_string(&ids, &t.id.value);
        proof {
            let pre = ids@.map_values(|x: String| x@);
            assert(dup == pre.contains(t.id.value@)) by {
                if dup {
                    let j = choose|j: int| 0 <= j < ids@.len() && #[trigger] ids@[j]@
                        == t.id.value@;
                    assert(pre[j] == ids@[j]@);
                } else {
                    if pre.contains(t.id.value@) {
                        let j = choose|j: int| 0 <= j < pre.len() && pre[j] == t.id.value@;
                        assert(ids@[j]@ == pre[j]);
                    }
                }
            };
        }
        if name_hit && !dup {
            let ghost pre = ids@.map_values(|x: String| x@);
            ids.push(t.id.value.clone());
            proof {
                assert(ids@.map_values(|x: String| x@) =~= pre.push(all[i as int].id.value@));
            }
        }
        i = i + 1;
    }
    proof {
        assert(all.take(all.len() as int) =~= all);
    }
    if ids.len() == 0 {
        Err(GolemError::NotFound(name.clone()))
    } else if ids.len() == 1 {
        let id = ids.remove(0);
        assert(id@ == spec_matching_ids(templates@, name@)[0]);
        Ok(TemplateId { value: id })
    } else {
        Err(GolemError::Ambiguous(ids))
    }
}

/// In-process cache of resolved template names, shared with the worker
/// handler. Each entry maps a name to the identifier it resolved to.
pub struct NameCache {
    pub entries: Vec<(String, String)>,
}

/// The identifier the cache holds for a name, if any: the first entry whose
/// name matches.
pub open spec fn spec_cache_lookup(entries: Seq<(String, String)>, name: Seq<char>) -> Option<
    Seq<char>,
>
    decreases entries.len(),
{
    if entries.len() == 0 {
        Option::None
    } else if entries.first().0@ == name {
        Option::Some(entries.first().1@)
    } else {
        spec_cache_lookup(entries.drop_first(), name)
    }
}

impl NameCache {
    /// No two entries share a name, so a lookup answer is unambiguous.
    pub open spec fn wf(&self) -> bool {
        forall|i: int, j: int|
            0 <= i < j < self.entries@.len() ==> self.entries@[i].0@ != self.entries@[j].0@
    }

    /// An empty cache.
    pub fn new() -> (r: NameCache)
        ensures
            r.wf(),
            r.entries@.len() == 0,
    {
        NameCache { entries: Vec::new() }
    }

    /// The cached identifier for a name.
    pub fn lookup(&self, name: &String) -> (r: Option<String>)
        ensures
            match r {
                Option::Some(id) => spec_cache_lookup(self.entries@, name@) == Option::Some(id@),
                Option::None => spec_cache_lookup(self.entries@, name@) is None,
            },
    {
        let mut i: usize = 0;
        while i < self.entries.len()
            invariant
                i <= self.entries@.len(),
                forall|j: int| 0 <= j < i ==> self.entries@[j].0@ != name@,
            decreases self.entries@.len() - i,
        {
            if str_eq(&self.entries[i].0, name.as_str()) {
                proof {
                    lemma_cache_lookup_at(self.entries@, name@, i as int);
                }
                return Some(self.entries[i].1.clone());
            }
            i = i + 1;
        }
        proof {
            lemma_cache_lookup_missing(self.entries@, name@);
        }
        None
    }
}

/// Where every entry before `i` misses the name and entry `i` carries it,
/// the lookup answers entry `i`.
proof fn lemma_cache_lookup_at(entries: Seq<(String, String)>, name: Seq<char>, i: int)
    requires
        0 <= i < entries.len(),
        forall|j: int| 0 <= j < i ==> entries[j].0@ != name,
        entries[i].0@ == name,
    ensures
        spec_cache_lookup(entries, name) == Option::Some(entries[i].1@),
    decreases entries.len(),
{
    if i > 0 {
        lemma_cache_lookup_at(entries.drop_first(), name, i - 1);
        assert(entries.drop_first()[i - 1] == entries[i]);
    }
}

/// Where no entry carries the name, the lookup answers nothing.
proof fn lemma_cache_lookup_missing(entries: Seq<(String, String)>, name: Seq<char>)
    requires
        forall|j: int| 0 <= j < entries.len() ==> entries[j].0@ != name,
    ensures
        spec_cache_lookup(entries, name) is None,
    decreases entries.len(),
{
    if entries.len() > 0 {
        lemma_cache_lookup_missing(entries.drop_first(), name);
    }
}

/// Resolves a template name through the cache: a cached name answers
/// without looking at the template list; an uncached name is resolved
/// against the list and, on success, remembered.
pub fn resolve_with_cache(cache: &mut NameCache, name: &String, templates: &Vec<Template>) -> (r:
    Result<TemplateId, GolemError>)
    requires
        old(cache).wf(),
    ensures
        final(cache).wf(),
        match spec_cache_lookup(old(cache).entries@, name@) {
            Option::Some(id) => r matches Ok(t) && t.value@ == id && *final(cache) == *old(cache),
            Option::None => {
                &&& (r matches Ok(t) ==> {
                    &&& spec_matching_ids(templates@, name@) == seq![t.value@]
                    &&& final(cache).entries@.len() == old(cache).entries@.len() + 1
                    &&& forall|i: int|
                        0 <= i < old(cache).entries@.len() ==> final(cache).entries@[i] == old(
                            cache,
                        ).entries@[i]
                    &&& final(cache).entries@.last().0@ == name@
                    &&& final(cache).entries@.last().1@ == t.value@
                })
                &&& (r is Err ==> *final(cache) == *old(cache))
                &&& (r is Ok <==> spec_matching_ids(templates@, name@).len() == 1)
            },
        },
{
    match cache.lookup(name) {
        Option::Some(id) => Ok(TemplateId { value: id }),
        Option::None => {
            let resolved = resolve_template_name(templates, name);
            match resolved {
                Ok(t) => {
                    proof {
                        assert(spec_matching_ids(templates@, name@) =~= seq![t.value@]);
                    }
                    let ghost before = cache.entries@;
                    cache.entries.push((name.clone(), t.value.clone()));
                    proof {
                        lemma_cache_push_wf(before, name@, *cache);
                    }
                    Ok(t)
                },
                Err(e) => Err(e),
            }
        },
    }
}

/// Appending a fresh name keeps the cache well-formed.
proof fn lemma_cache_push_wf(before: Seq<(String, String)>, name: Seq<char>, after: NameCache)
    requires
        forall|i: int, j: int| 0 <= i < j < before.len() ==> before[i].0@ != before[j].0@,
        spec_cache_lookup(before, name) is None,
        after.entries@.len() == before.len() + 1,
        forall|i: int| 0 <= i < before.len() ==> after.entries@[i] == before[i],
        after.entries@.last().0@ == name,
    ensures
        after.wf(),
{
    lemma_cache_miss_everywhere(before, name);
    assert forall|i: int, j: int|
        0 <= i < j < after.entries@.len() implies after.entries@[i].0@
        != after.entries@[j].0@ by {
        if j == after.entries@.len() - 1 {
            assert(after.entries@[i] == before[i]);
            assert(after.entries@[j].0@ == name);
        } else {
            assert(after.entries@[i] == before[i]);
            assert(after.entries@[j] == before[j]);
        }
    }
}

/// A name the lookup misses is carried by no entry.
proof fn lemma_cache_miss_everywhere(entries: Seq<(String, String)>, name: Seq<char>)
    requires
        spec_cache_lookup(entries, name) is None,
    ensures
        forall|j: int| 0 <= j < entries.len() ==> entries[j].0@ != name,
    decreases entries.len(),
{
    if entries.len() > 0 {
        lemma_cache_miss_everywhere(entries.drop_first(), name);
        assert forall|j: int| 0 <= j < entries.len() implies entries[j].0@ != name by {
            if j > 0 {
                assert(entries.drop_first()[j - 1] == entries[j]);
            }
        }
    }
}

/// Name resolution is idempotent within one process: once a name has been
/// resolved and cached, every later resolution of the same name answers
/// the same identifier, whatever template list the server returns then.
pub proof fn lemma_resolution_idempotent(
    entries: Seq<(String, String)>,
    name: Seq<char>,
    id: Seq<char>,
    entry: (String, String),
)
    requires
        spec_cache_lookup(entries, name) is None,
        entry.0@ == name,
        entry.1@ == id,
    ensures
        spec_cache_lookup(entries.push(entry), name) == Option::Some(id),
    decreases entries.len(),
{
    if entries.len() == 0 {
        assert(entries.push(entry).first() == entry);
    } else {
        lemma_resolution_idempotent(entries.drop_first(), name, id, entry);
        assert(entries.push(entry).first() == entries.first());
        assert(entries.push(entry).drop_first() =~= entries.drop_first().push(entry));
    }
}

} // verus!
