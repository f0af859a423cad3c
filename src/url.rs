//! The link to the running build, with the pipeline's instance variables
//! flattened into its query string.
use vstd::prelude::*;
use vstd::string::*;
use crate::error::ResourceError;

verus! {

/// A pipeline instance variable, as read from its JSON document.
pub enum InstanceVar {
    /// A value that is not an object, held as its compact JSON text.
    Scalar(String),
    /// An object, with its entries in document order.
    Object(Vec<(String, InstanceVar)>),
}

/// The dotted path of `key` below `parent`.
pub open spec fn child_path(parent: Option<Seq<char>>, key: Seq<char>) -> Seq<char> {
    match parent {
        Some(p) => p + seq!['.'] + key,
        None => key,
    }
}

/// What one character of a value becomes in the query string.
pub open spec fn quote_piece(c: char) -> Seq<char> {
    if c == '"' {
        "%22"@
    } else {
        seq![c]
    }
}

/// `s` with every double quote percent-encoded.
pub open spec fn escape_quotes(s: Seq<char>) -> Seq<char>
    decreases s.len(),
{
    if s.len() == 0 {
        Seq::empty()
    } else {
        escape_quotes(s.drop_last()) + quote_piece(s.last())
    }
}

/// The parameter emitted for a value that is not an object, with every
/// double quote of its path and of its value percent-encoded.
pub open spec fn leaf_param(path: Seq<char>, text: Seq<char>) -> Seq<char> {
    "vars."@ + escape_quotes(path) + "="@ + escape_quotes(text)
}

/// The parameters of `node` found at `path`, depth first, in document order.
pub open spec fn node_params(path: Seq<char>, node: InstanceVar) -> Seq<Seq<char>>
    decreases node,
{
    match node {
        InstanceVar::Scalar(text) => seq![leaf_param(path, text@)],
        InstanceVar::Object(entries) => entries_params(Some(path), entries@),
    }
}

/// The parameters of the entries of an object found below `parent`.
pub open spec fn entries_params(
    parent: Option<Seq<char>>,
    entries: Seq<(String, InstanceVar)>,
) -> Seq<Seq<char>>
    decreases entries,
{
    if entries.len() == 0 {
        Seq::empty()
    } else {
        entries_params(parent, entries.drop_last()) + node_params(
            child_path(parent, entries.last().0@),
            entries.last().1,
        )
    }
}

/// The parameters joined by `&`.
pub open spec fn join_params(ps: Seq<Seq<char>>) -> Seq<char>
    decreases ps.len(),
{
    if ps.len() == 0 {
        Seq::empty()
    } else if ps.len() == 1 {
        ps[0]
    } else {
        join_params(ps.drop_last()) + "&"@ + ps.last()
    }
}

/// The query string for the instance variables of a pipeline: empty when
/// there is no parameter, else `?` and the joined parameters.
pub open spec fn query_suffix(vars: Seq<(String, InstanceVar)>) -> Seq<char> {
    let ps = entries_params(None, vars);
    if ps.len() == 0 {
        Seq::empty()
    } else {
        "?"@ + join_params(ps)
    }
}

/// The view of an optional path.
pub open spec fn path_view(p: Option<&String>) -> Option<Seq<char>> {
    match p {
        Some(s) => Some(s@),
        None => None,
    }
}

/// Appends `text` to `out` with every double quote percent-encoded.
fn push_escaped(out: &mut String, text: &String)
    ensures
        final(out)@ == old(out)@ + escape_quotes(text@),
{
    let s = text.as_str();
    let n = s.unicode_len();
    let mut i: usize = 0;
    while i < n
        invariant
            n == s@.len(),
            s@ == text@,
            i <= n,
            out@ == old(out)@ + escape_quotes(s@.take(i as int)),
        decreases n - i,
    {
        let c = s.get_char(i);
        if c == '"' {
            out.append("%22");
        } else {
            out.append(s.substring_char(i, i + 1));
        }
        assert(s@.take(i + 1).drop_last() =~= s@.take(i as int));
        assert(s@.subrange(i as int, i + 1) =~= seq![c]);
        i = i + 1;
    }
    assert(s@.take(n as int) =~= s@);
}

/// Appends to `out` the parameters of `entries`, found below `parent`, each
/// after a `&` where one came before.
fn append_params(
    entries: &Vec<(String, InstanceVar)>,
    parent: Option<&String>,
    out: &mut String,
    any: &mut bool,
    Ghost(done): Ghost<Seq<Seq<char>>>,
)
    requires
        old(out)@ == join_params(done),
        *old(any) == (done.len() > 0),
    ensures
        final(out)@ == join_params(done + entries_params(path_view(parent), entries@)),
        *final(any) == ((done + entries_params(path_view(parent), entries@)).len() > 0),
    decreases entries@,
{
    let ghost gp = path_view(parent);
    let mut i: usize = 0;
    while i < entries.len()
        invariant
            i <= entries@.len(),
            gp == path_view(parent),
            out@ == join_params(done + entries_params(gp, entries@.take(i as int))),
            *any == ((done + entries_params(gp, entries@.take(i as int))).len() > 0),
        decreases entries@.len() - i,
    {
        let ghost before = done + entries_params(gp, entries@.take(i as int));
        let entry = &entries[i];
        proof {
            reveal_strlit(".");
        }
        let path = match parent {
            Some(p) => {
                let mut q = p.clone();
                q.append(".");
                q.append(entry.0.as_str());
                q
            },
            None => entry.0.clone(),
        };
        assert(path@ == child_path(gp, entry.0@));
        match &entry.1 {
            InstanceVar::Scalar(text) => {
                if *any {
                    out.append("&");
                }
                out.append("vars.");
                push_escaped(out, &path);
                out.append("=");
                push_escaped(out, text);
                *any = true;
                assert(before.push(leaf_param(path@, text@)).drop_last() =~= before);
                assert(out@ =~= join_params(before.push(leaf_param(path@, text@))));
                assert(node_params(path@, entry.1) =~= seq![leaf_param(path@, text@)]);
                assert(before + node_params(path@, entry.1) =~= before.push(
                    leaf_param(path@, text@),
                ));
            },
            InstanceVar::Object(children) => {
                assert(decreases_to!(entries@ => children@)) by {
                    assert(decreases_to!(entries@ => entries@[i as int]));
                    assert(decreases_to!(entries@[i as int] => entries@[i as int].1));
                };
                append_params(children, Some(&path), out, any, Ghost(before));
            },
        }
        assert(entries@.take(i + 1).drop_last() =~= entries@.take(i as int));
        assert(entries@.take(i + 1).last() == entries@[i as int]);
        assert(before + node_params(path@, entry.1) =~= done + entries_params(
            gp,
            entries@.take(i + 1),
        ));
        i = i + 1;
    }
    assert(entries@.take(entries@.len() as int) =~= entries@);
}

/// The query string for the instance variables of a pipeline.
pub fn set_parameters(instance_vars: &Vec<(String, InstanceVar)>) -> (r: String)
    ensures
        r@ == query_suffix(instance_vars@),
{
    let mut out = String::new();
    let mut any = false;
    append_params(instance_vars, None, &mut out, &mut any, Ghost(Seq::empty()));
    assert(Seq::<Seq<char>>::empty() + entries_params(None, instance_vars@) =~= entries_params(
        None,
        instance_vars@,
    ));
    if any {
        let mut r = String::from_str("?");
        r.append(out.as_str());
        r
    } else {
        out
    }
}


/// What the environment holds of the pipeline's instance variables.
pub enum InstanceVars {
    /// The variable is not set.
    Unset,
    /// The variable is set, but its text is not a JSON object.
    Malformed,
    /// The entries of the JSON object the variable holds, in document order.
    Parsed(Vec<(String, InstanceVar)>),
}

/// The environment of the running build, as the URL builder reads it.
pub struct BuildEnv {
    pub atc_external_url: Option<String>,
    pub build_team_name: Option<String>,
    pub build_pipeline_name: Option<String>,
    pub build_job_name: Option<String>,
    pub build_name: Option<String>,
    pub build_pipeline_instance_vars: InstanceVars,
}

/// The required variables, in the order they are looked up.
pub open spec fn required_value(env: BuildEnv, k: int) -> Option<String> {
    if k == 0 {
        env.atc_external_url
    } else if k == 1 {
        env.build_team_name
    } else if k == 2 {
        env.build_pipeline_name
    } else if k == 3 {
        env.build_job_name
    } else {
        env.build_name
    }
}

/// The name of the required variable looked up at step `k`.
pub open spec fn variable_name(k: int) -> Seq<char> {
    if k == 0 {
        "ATC_EXTERNAL_URL"@
    } else if k == 1 {
        "BUILD_TEAM_NAME"@
    } else if k == 2 {
        "BUILD_PIPELINE_NAME"@
    } else if k == 3 {
        "BUILD_JOB_NAME"@
    } else {
        "BUILD_NAME"@
    }
}

/// The name of the first required variable, from step `k` on, that is not set.
pub open spec fn first_missing_from(env: BuildEnv, k: int) -> Option<Seq<char>>
    decreases 5 - k,
{
    if k >= 5 || k < 0 {
        None
    } else if required_value(env, k) is None {
        Some(variable_name(k))
    } else {
        first_missing_from(env, k + 1)
    }
}

/// The name of the first required variable that is not set, if any.
pub open spec fn first_missing(env: BuildEnv) -> Option<Seq<char>> {
    first_missing_from(env, 0)
}

/// The query string that the instance variables give: empty unless they
/// were read as a JSON object.
pub open spec fn instance_suffix(vars: InstanceVars) -> Seq<char> {
    match vars {
        InstanceVars::Parsed(entries) => query_suffix(entries@),
        _ => Seq::empty(),
    }
}

/// The link to a build, from its parts and its query string.
pub open spec fn build_url(
    base: Seq<char>,
    team: Seq<char>,
    pipeline: Seq<char>,
    job: Seq<char>,
    build: Seq<char>,
    suffix: Seq<char>,
) -> Seq<char> {
    base + "/teams/"@ + team + "/pipelines/"@ + pipeline + "/jobs/"@ + job + "/builds/"@ + build
        + suffix
}

/// The link to the build that `env` describes, where every required
/// variable is set.
pub open spec fn concourse_url(env: BuildEnv) -> Seq<char> {
    build_url(
        env.atc_external_url->0@,
        env.build_team_name->0@,
        env.build_pipeline_name->0@,
        env.build_job_name->0@,
        env.build_name->0@,
        instance_suffix(env.build_pipeline_instance_vars),
    )
}

/// The value of a required variable, or the error that names it.
fn required(value: &Option<String>, name: &str) -> (r: Result<String, ResourceError>)
    ensures
        match r {
            Ok(v) => *value == Some(v),
            Err(ResourceError::VarError { name: n }) => value.is_none() && n@ == name@,
            Err(_) => false,
        },
{
    match value {
        Some(v) => Ok(v.clone()),
        None => Err(ResourceError::VarError { name: String::from_str(name) }),
    }
}

/// The link to the running build: `<url>/teams/<team>/pipelines/<pipeline>/jobs/<job>/builds/<build>`
/// and the query string of the instance variables. Fails on the first
/// required variable, in lookup order, that is not set.
pub fn build_concourse_url(env: &BuildEnv) -> (r: Result<String, ResourceError>)
    ensures
        match r {
            Ok(u) => first_missing(*env) is None && u@ == concourse_url(*env),
            Err(ResourceError::VarError { name }) => first_missing(*env) == Some(name@),
            Err(_) => false,
        },
{
    proof {
        reveal_with_fuel(first_missing_from, 6);
    }
    let base = match required(&env.atc_external_url, "ATC_EXTERNAL_URL") {
        Ok(v) => v,
        Err(e) => return Err(e),
    };
    let team = match required(&env.build_team_name, "BUILD_TEAM_NAME") {
        Ok(v) => v,
        Err(e) => return Err(e),
    };
    let pipeline = match required(&env.build_pipeline_name, "BUILD_PIPELINE_NAME") {
        Ok(v) => v,
        Err(e) => return Err(e),
    };
    let job = match required(&env.build_job_name, "BUILD_JOB_NAME") {
        Ok(v) => v,
        Err(e) => return Err(e),
    };
    let build = match required(&env.build_name, "BUILD_NAME") {
        Ok(v) => v,
        Err(e) => return Err(e),
    };
    let suffix = match &env.build_pipeline_instance_vars {
        InstanceVars::Parsed(entries) => set_parameters(entries),
        _ => String::new(),
    };
    let mut url = base;
    url.append("/teams/");
    url.append(team.as_str());
    url.append("/pipelines/");
    url.append(pipeline.as_str());
    url.append("/jobs/");
    url.append(job.as_str());
    url.append("/builds/");
    url.append(build.as_str());
    url.append(suffix.as_str());
    assert(url@ =~= concourse_url(*env));
    Ok(url)
}


/// Where exactly one required variable is unset, the failure names that
/// variable.
pub proof fn lemma_single_missing_variable_named(env: BuildEnv, k: int)
    requires
        0 <= k < 5,
        required_value(env, k) is None,
        forall|j: int| 0 <= j < 5 && j != k ==> (#[trigger] required_value(env, j)) is Some,
    ensures
        first_missing(env) == Some(variable_name(k)),
{
    reveal_with_fuel(first_missing_from, 6);
    assert(required_value(env, 0) is Some || k == 0);
    assert(required_value(env, 1) is Some || k == 1);
    assert(required_value(env, 2) is Some || k == 2);
    assert(required_value(env, 3) is Some || k == 3);
    assert(required_value(env, 4) is Some || k == 4);
}

/// Where every required variable is set and the instance variables are
/// unset or not a JSON object, the link is built and has no query string.
pub proof fn lemma_no_instance_vars_no_query(env: BuildEnv)
    requires
        forall|j: int| 0 <= j < 5 ==> (#[trigger] required_value(env, j)) is Some,
        !(env.build_pipeline_instance_vars is Parsed),
    ensures
        first_missing(env) is None,
        concourse_url(env) == env.atc_external_url->0@ + "/teams/"@ + env.build_team_name->0@
            + "/pipelines/"@ + env.build_pipeline_name->0@ + "/jobs/"@ + env.build_job_name->0@
            + "/builds/"@ + env.build_name->0@,
{
    reveal_with_fuel(first_missing_from, 6);
    assert(required_value(env, 0) is Some);
    assert(required_value(env, 1) is Some);
    assert(required_value(env, 2) is Some);
    assert(required_value(env, 3) is Some);
    assert(required_value(env, 4) is Some);
    assert(concourse_url(env) =~= env.atc_external_url->0@ + "/teams/"@ + env.build_team_name->0@
        + "/pipelines/"@ + env.build_pipeline_name->0@ + "/jobs/"@ + env.build_job_name->0@
        + "/builds/"@ + env.build_name->0@);
}

/// `s` holds no double quote.
pub open spec fn no_quote(s: Seq<char>) -> bool {
    forall|i: int| 0 <= i < s.len() ==> s[i] != '"'
}

proof fn lemma_concat_no_quote(a: Seq<char>, b: Seq<char>)
    requires
        no_quote(a),
        no_quote(b),
    ensures
        no_quote(a + b),
{
    assert forall|i: int| 0 <= i < (a + b).len() implies (a + b)[i] != '"' by {
        if i >= a.len() {
            assert((a + b)[i] == b[i - a.len()]);
        }
    }
}

proof fn lemma_escape_no_quote(s: Seq<char>)
    ensures
        no_quote(escape_quotes(s)),
    decreases s.len(),
{
    reveal_strlit("%22");
    if s.len() > 0 {
        lemma_escape_no_quote(s.drop_last());
        lemma_concat_no_quote(escape_quotes(s.drop_last()), quote_piece(s.last()));
    }
}

proof fn lemma_leaf_no_quote(path: Seq<char>, text: Seq<char>)
    ensures
        no_quote(leaf_param(path, text)),
{
    reveal_strlit("vars.");
    reveal_strlit("=");
    lemma_escape_no_quote(path);
    lemma_escape_no_quote(text);
    lemma_concat_no_quote("vars."@, escape_quotes(path));
    lemma_concat_no_quote("vars."@ + escape_quotes(path), "="@);
    lemma_concat_no_quote("vars."@ + escape_quotes(path) + "="@, escape_quotes(text));
}

proof fn lemma_node_params_no_quote(path: Seq<char>, node: InstanceVar)
    ensures
        forall|k: int|
            0 <= k < node_params(path, node).len() ==> no_quote(#[trigger] node_params(path, node)[k]),
    decreases node,
{
    if node is Scalar {
        let text = node->Scalar_0@;
        lemma_leaf_no_quote(path, text);
        assert(node_params(path, node) =~= seq![leaf_param(path, text)]);
    } else {
        lemma_entries_params_no_quote(Some(path), node->Object_0@);
        assert(node_params(path, node) == entries_params(Some(path), node->Object_0@));
    }
}

proof fn lemma_entries_params_no_quote(parent: Option<Seq<char>>, entries: Seq<(String, InstanceVar)>)
    ensures
        forall|k: int|
            0 <= k < entries_params(parent, entries).len() ==> no_quote(
                #[trigger] entries_params(parent, entries)[k],
            ),
    decreases entries,
{
    if entries.len() > 0 {
        let a = entries_params(parent, entries.drop_last());
        let b = node_params(child_path(parent, entries.last().0@), entries.last().1);
        lemma_entries_params_no_quote(parent, entries.drop_last());
        lemma_node_params_no_quote(child_path(parent, entries.last().0@), entries.last().1);
        assert forall|k: int| 0 <= k < (a + b).len() implies no_quote(#[trigger] (a + b)[k]) by {
            if k >= a.len() {
                assert((a + b)[k] == b[k - a.len()]);
            }
        }
    }
}

proof fn lemma_join_no_quote(ps: Seq<Seq<char>>)
    requires
        forall|k: int| 0 <= k < ps.len() ==> no_quote(#[trigger] ps[k]),
    ensures
        no_quote(join_params(ps)),
    decreases ps.len(),
{
    reveal_strlit("&");
    if ps.len() > 1 {
        lemma_join_no_quote(ps.drop_last());
        lemma_concat_no_quote(join_params(ps.drop_last()), "&"@);
        lemma_concat_no_quote(join_params(ps.drop_last()) + "&"@, ps.last());
    }
}

/// The query string of any instance variables never holds a literal double
/// quote: every quote of a path or of a value is percent-encoded.
pub proof fn lemma_query_has_no_quote(vars: Seq<(String, InstanceVar)>)
    ensures
        no_quote(query_suffix(vars)),
{
    reveal_strlit("?");
    let ps = entries_params(None, vars);
    lemma_entries_params_no_quote(None, vars);
    if ps.len() > 0 {
        lemma_join_no_quote(ps);
        lemma_concat_no_quote("?"@, join_params(ps));
    }
}

} // verus!
