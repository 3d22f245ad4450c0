//! The command-line tools around the pipeline: the run of the three
//! conversion steps on the newest product page, the deployment of the site,
//! and the saving of search result pages.
use vstd::prelude::*;
use crate::text::{chars_to_string, decimal, decimal_exec, joined, join_exec, push_all, push_str, str_chars, trim, trim_str, zero_padded, zero_padded_exec};
use crate::encode::{url_encode, url_encoded};
use crate::markup::views;

verus! {

// ---------------------------------------------------------------------
// The pipeline
// ---------------------------------------------------------------------

/// A program to run and its arguments.
pub struct Invocation {
    pub program: String,
    pub args: Vec<String>,
}

/// The arguments that run the tool `name` of this package through cargo,
/// quietly, with `args` handed on to it.
pub open spec fn cargo_args(name: Seq<char>, args: Seq<Seq<char>>) -> Seq<Seq<char>> {
    seq!["run"@, "--quiet"@, "--bin"@, name, "--"@] + args
}

/// The run of the tool `name` with `args`.
pub fn run_cargo_bin(name: &str, args: &Vec<String>) -> (r: Invocation)
    ensures
        r.program@ == "cargo"@,
        views(r.args@) == cargo_args(name@, views(args@)),
{
    let mut v: Vec<String> = Vec::new();
    v.push(String::from_str("run"));
    v.push(String::from_str("--quiet"));
    v.push(String::from_str("--bin"));
    v.push(String::from_str(name));
    v.push(String::from_str("--"));
    let mut i: usize = 0;
    while i < args.len()
        invariant
            i <= args.len(),
            v@.len() == 5 + i,
            views(v@).take(5) == seq!["run"@, "--quiet"@, "--bin"@, name@, "--"@],
            forall|j: int| 0 <= j < i ==> #[trigger] v@[5 + j]@ == args@[j]@,
        decreases args.len() - i,
    {
        v.push(String::from_str(args[i].as_str()));
        i = i + 1;
        assert(views(v@).take(5) == views(v@.take(5)));
    }
    assert(views(v@) =~= cargo_args(name@, views(args@))) by {
        assert forall|j: int| 0 <= j < views(v@).len() implies views(v@)[j] == cargo_args(
            name@,
            views(args@),
        )[j] by {
            if j < 5 {
                assert(views(v@).take(5)[j] == views(v@)[j]);
            } else {
                assert(v@[5 + (j - 5)]@ == args@[j - 5]@);
            }
        }
    }
    Invocation { program: String::from_str("cargo"), args: v }
}

/// The run of the tool `name` from `input` to `output`.
fn run_step(name: &str, input: &str, output: &str) -> (r: Invocation)
    ensures
        r.program@ == "cargo"@,
        views(r.args@) == cargo_args(name@, seq![input@, output@]),
{
    let mut a: Vec<String> = Vec::new();
    a.push(String::from_str(input));
    a.push(String::from_str(output));
    assert(views(a@) == seq![input@, output@]);
    run_cargo_bin(name, &a)
}

/// The run turning the product page `input` into Markdown at `output`.
pub fn run_html2md(input: &str, output: &str) -> (r: Invocation)
    ensures
        r.program@ == "cargo"@,
        views(r.args@) == cargo_args("html2md"@, seq![input@, output@]),
{
    run_step("html2md", input, output)
}

/// The run turning the Markdown description `input` into a review at
/// `output`.
pub fn run_md2review(input: &str, output: &str) -> (r: Invocation)
    ensures
        r.program@ == "cargo"@,
        views(r.args@) == cargo_args("md2review"@, seq![input@, output@]),
{
    run_step("md2review", input, output)
}

/// The run turning the review `input` into the HTML page `output`.
pub fn run_review2html(input: &str, output: &str) -> (r: Invocation)
    ensures
        r.program@ == "cargo"@,
        views(r.args@) == cargo_args("review2html"@, seq![input@, output@]),
{
    run_step("review2html", input, output)
}

/// The message for a tool that ended with `code` (`-1` when it was ended
/// by a signal).
pub open spec fn step_failure_model(name: Seq<char>, code: int) -> Seq<char> {
    name + " failed with exit code "@ + if code < 0 {
        "-"@ + decimal((-code) as nat)
    } else {
        decimal(code as nat)
    }
}

/// The message for the tool `name` having failed with the exit code `code`.
pub fn step_failure(name: &str, code: Option<i32>) -> (r: String)
    ensures
        r@ == step_failure_model(name@, match code {
            Some(c) => c as int,
            None => -1,
        }),
{
    let c: i32 = match code {
        Some(c) => c,
        None => -1,
    };
    let mut out = str_chars(name);
    push_str(&mut out, " failed with exit code ");
    if c < 0 {
        push_str(&mut out, "-");
        let m: u64 = (-(c as i64)) as u64;
        push_all(&mut out, &decimal_exec(m));
    } else {
        push_all(&mut out, &decimal_exec(c as u64));
    }
    chars_to_string(&out)
}

/// `i` is the first position holding the greatest of `times`.
pub open spec fn is_newest(times: Seq<u128>, i: int) -> bool {
    &&& 0 <= i < times.len()
    &&& forall|j: int| 0 <= j < times.len() ==> times[j] <= times[i]
    &&& forall|j: int| 0 <= j < i ==> times[j] < times[i]
}

/// The page to process among pages modified at `times`: the most recently
/// modified, the first of them on a tie (a stable sort, newest first, puts
/// it in front); none when there is no page.
pub fn newest_page(times: &Vec<u128>) -> (r: Option<usize>)
    ensures
        match r {
            Some(i) => is_newest(times@, i as int),
            None => times@.len() == 0,
        },
{
    if times.len() == 0 {
        return None;
    }
    let mut best: usize = 0;
    let mut i: usize = 1;
    while i < times.len()
        invariant
            1 <= i <= times.len(),
            best < i,
            forall|j: int| 0 <= j < i ==> times@[j] <= times@[best as int],
            forall|j: int| 0 <= j < best ==> times@[j] < times@[best as int],
        decreases times.len() - i,
    {
        if times[i] > times[best] {
            best = i;
        }
        i = i + 1;
    }
    Some(best)
}

// ---------------------------------------------------------------------
// Deployment
// ---------------------------------------------------------------------

/// The branch deployed: the one set, or `main`.
pub fn deploy_branch(setting: Option<&str>) -> (r: String)
    ensures
        r@ == match setting {
            Some(b) => b@,
            None => "main"@,
        },
{
    match setting {
        Some(b) => String::from_str(b),
        None => String::from_str("main"),
    }
}

/// The arguments of a Pages deployment of `dir` to `project` on `branch`,
/// after the program: `npx` needs `-y wrangler` first.
pub open spec fn deploy_args_model(use_wrangler: bool, dir: Seq<char>, project: Seq<char>, branch: Seq<char>) -> Seq<Seq<char>> {
    (if use_wrangler {
        seq![]
    } else {
        seq!["-y"@, "wrangler"@]
    }) + seq![
        "pages"@,
        "deploy"@,
        dir,
        "--project-name"@,
        project,
        "--branch"@,
        branch,
        "--no-bundle"@,
    ]
}

/// The deployment of the site in `data_dir` to the Pages project `project`
/// on `branch`: with wrangler itself when it is installed, else through
/// npx.
pub fn deploy_command(use_wrangler: bool, data_dir: &str, project: &str, branch: &str) -> (r: Invocation)
    ensures
        r.program@ == if use_wrangler { "wrangler"@ } else { "npx"@ },
        views(r.args@) == deploy_args_model(use_wrangler, data_dir@, project@, branch@),
{
    let mut v: Vec<String> = Vec::new();
    if !use_wrangler {
        v.push(String::from_str("-y"));
        v.push(String::from_str("wrangler"));
    }
    v.push(String::from_str("pages"));
    v.push(String::from_str("deploy"));
    v.push(String::from_str(data_dir));
    v.push(String::from_str("--project-name"));
    v.push(String::from_str(project));
    v.push(String::from_str("--branch"));
    v.push(String::from_str(branch));
    v.push(String::from_str("--no-bundle"));
    assert(views(v@) == deploy_args_model(use_wrangler, data_dir@, project@, branch@));
    let program = if use_wrangler {
        String::from_str("wrangler")
    } else {
        String::from_str("npx")
    };
    Invocation { program, args: v }
}

/// The environment of a deployment: the account and token under both
/// their Cloudflare and their own names, the project and the branch.
pub open spec fn deploy_env_model(account: Seq<char>, token: Seq<char>, project: Seq<char>, branch: Seq<char>) -> Seq<(Seq<char>, Seq<char>)> {
    seq![
        ("CLOUDFLARE_ACCOUNT_ID"@, account),
        ("CLOUDFLARE_API_TOKEN"@, token),
        ("CF_ACCOUNT_ID"@, account),
        ("CF_API_TOKEN"@, token),
        ("CF_PAGE"@, project),
        ("CF_BRANCH"@, branch),
    ]
}

/// The environment variables set for the deployment.
pub fn deploy_env(account_id: &str, api_token: &str, project: &str, branch: &str) -> (r: Vec<(String, String)>)
    ensures
        r@.map_values(|p: (String, String)| (p.0@, p.1@)) == deploy_env_model(
            account_id@,
            api_token@,
            project@,
            branch@,
        ),
{
    let mut v: Vec<(String, String)> = Vec::new();
    v.push((String::from_str("CLOUDFLARE_ACCOUNT_ID"), String::from_str(account_id)));
    v.push((String::from_str("CLOUDFLARE_API_TOKEN"), String::from_str(api_token)));
    v.push((String::from_str("CF_ACCOUNT_ID"), String::from_str(account_id)));
    v.push((String::from_str("CF_API_TOKEN"), String::from_str(api_token)));
    v.push((String::from_str("CF_PAGE"), String::from_str(project)));
    v.push((String::from_str("CF_BRANCH"), String::from_str(branch)));
    assert(v@.map_values(|p: (String, String)| (p.0@, p.1@)) == deploy_env_model(
        account_id@,
        api_token@,
        project@,
        branch@,
    ));
    v
}

// ---------------------------------------------------------------------
// Search result pages
// ---------------------------------------------------------------------

/// How many result pages are saved.
pub const RESULT_PAGES: usize = 50;

/// The search terms: the arguments joined by spaces; `None` when that is
/// blank.
pub open spec fn query_model(args: Seq<Seq<char>>) -> Option<Seq<char>> {
    let q = joined(args, " "@);
    if trim(q).len() == 0 {
        None
    } else {
        Some(q)
    }
}

/// The search terms given as the arguments `args`.
pub fn search_query(args: &Vec<String>) -> (r: Option<String>)
    ensures
        match r {
            Some(q) => query_model(views(args@)) == Some(q@),
            None => query_model(views(args@)) is None,
        },
{
    let mut parts: Vec<Vec<char>> = Vec::new();
    let mut i: usize = 0;
    while i < args.len()
        invariant
            i <= args.len(),
            parts@.len() == i,
            forall|j: int| 0 <= j < i ==> #[trigger] parts@[j]@ == args@[j]@,
        decreases args.len() - i,
    {
        parts.push(str_chars(args[i].as_str()));
        i = i + 1;
    }
    assert(parts@.map_values(|v: Vec<char>| v@) == views(args@));
    let q = join_exec(&parts, &str_chars(" "));
    let qs = chars_to_string(&q);
    if trim_str(qs.as_str()).len() == 0 {
        None
    } else {
        Some(qs)
    }
}

/// The first search page for `query`.
pub open spec fn search_url_model(query: Seq<char>) -> Seq<char> {
    "https://www.google.com/search?q="@ + url_encoded(query)
}

/// The first search page for `query`.
pub fn search_url(query: &str) -> (r: String)
    ensures
        r@ == search_url_model(query@),
{
    let mut out = str_chars("https://www.google.com/search?q=");
    push_str(&mut out, url_encode(query).as_str());
    chars_to_string(&out)
}

/// Result page `index` (from 0) for `query`, ten results a page.
pub open spec fn results_page_url_model(query: Seq<char>, index: nat) -> Seq<char> {
    "https://www.google.com/search?q="@ + url_encoded(query) + "&num=10&start="@ + decimal(index * 10)
}

/// Result page `index` (from 0) for `query`.
pub fn results_page_url(query: &str, index: usize) -> (r: String)
    requires
        index <= usize::MAX / 10,
    ensures
        r@ == results_page_url_model(query@, index as nat),
{
    let mut out = str_chars("https://www.google.com/search?q=");
    push_str(&mut out, url_encode(query).as_str());
    push_str(&mut out, "&num=10&start=");
    push_all(&mut out, &decimal_exec((index * 10) as u64));
    chars_to_string(&out)
}

/// The file saving result page `index` (from 0): `page_001.html` onwards.
pub open spec fn results_file_model(index: nat) -> Seq<char> {
    "page_"@ + zero_padded(index + 1, 3) + ".html"@
}

/// The file saving result page `index` (from 0).
pub fn results_file_name(index: usize) -> (r: String)
    requires
        index < usize::MAX,
    ensures
        r@ == results_file_model(index as nat),
{
    let mut out = str_chars("page_");
    push_all(&mut out, &zero_padded_exec((index + 1) as u64, 3));
    push_str(&mut out, ".html");
    chars_to_string(&out)
}

/// A saved page of fewer bytes than this is likely a consent page or a
/// captcha rather than results.
pub const SMALL_PAGE_BYTES: usize = 2000;

/// Whether a captured page of `len` bytes looks too small to hold results.
pub fn looks_blocked(len: usize) -> (b: bool)
    ensures
        b == (len < SMALL_PAGE_BYTES),
{
    len < SMALL_PAGE_BYTES
}

} // verus!
