# review_pipeline

A pipeline that turns a saved product page into a published review: the page
becomes a Markdown summary (`html2md`), a language model writes a Markdown
review from it (`md2review`), the review is rendered into an HTML page
(`review2html`), the pages are listed in a site index (`build_index`) and the
site is deployed (`cf_deploy`). Around it stand two OAuth helper servers
(Facebook, X), posting to a Facebook Page, an IFTTT webhook, a Medium draft and
a Pinterest Pin, and a tool that saves search result pages.

`src/` is the verified library: every text the pipeline builds and every
decision it takes, each function specified by its `requires`/`ensures` over
mathematical models and proved by Verus. Calls into outside crates (regular
expressions, HTML parsing, Markdown, URL, form, JSON and base64 encoding,
SHA-256, random numbers, the clock) go through small trusted wrappers whose
contracts state what those crates document. `src/laws.rs` holds properties of
the library as a whole.

| module | what it holds |
| --- | --- |
| `text`, `encode`, `json`, `markup`, `sort` | text operations, encodings, JSON values, outside markup tools, stable sorting |
| `images`, `listing` | the product page's images and its Markdown summary |
| `review`, `article`, `chat` | the prompts and the replies of the language model |
| `page`, `index` | the review page and the site index |
| `oauth`, `fb_oauth`, `x_oauth` | the OAuth helpers |
| `facebook`, `ifttt`, `medium`, `pinterest` | posting a new review |
| `tools` | the pipeline run, the deployment, saved search pages |
| `laws` | properties over several functions |

`app/` is the unverified shell: one program with a subcommand per tool, doing
the file, network and browser work and handing plain values to the library.
`tests/` runs the library on concrete values.
