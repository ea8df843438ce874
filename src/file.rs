use vstd::prelude::*;

use crate::content_type::{content_type_of, get_content_type};
use crate::http::{
    empty_reply, not_found, not_found_reply, response_with_no_body, Method, Reply, ReplyView,
    STATUS_NO_CONTENT, STATUS_OK,
};
use crate::path::{extension, extension_of, join_path, joined};

verus! {

/// The file served for a directory, and the application shell of the
/// single-page-application fallback.
pub open spec fn default_html() -> Seq<char> {
    "index.html"@
}

/// What to read for a `GET` or `HEAD` of a static file.
#[derive(Clone, Debug)]
pub struct ReadPlan {
    /// The file to read first.
    pub path: String,
    /// The application shell to read when `path` cannot be read.
    pub fallback: Option<String>,
    /// The extension of `path`, which decides its content type.
    pub extension: Option<String>,
    /// Whether the body is left out of the reply.
    pub head: bool,
}

pub struct ReadPlanView {
    pub path: Seq<char>,
    pub fallback: Option<Seq<char>>,
    pub extension: Option<Seq<char>>,
    pub head: bool,
}

impl View for ReadPlan {
    type V = ReadPlanView;

    open spec fn view(&self) -> ReadPlanView {
        ReadPlanView {
            path: self.path@,
            fallback: match self.fallback {
                Some(f) => Some(f@),
                None => None,
            },
            extension: match self.extension {
                Some(e) => Some(e@),
                None => None,
            },
            head: self.head,
        }
    }
}

/// The first step of serving a static file: a reply straight away, or what to read.
#[derive(Debug)]
pub enum FileLookup {
    Done(Reply),
    Read(ReadPlan),
}

pub enum FileLookupView {
    Done(ReplyView),
    Read(ReadPlanView),
}

impl View for FileLookup {
    type V = FileLookupView;

    open spec fn view(&self) -> FileLookupView {
        match self {
            FileLookup::Done(r) => FileLookupView::Done(r@),
            FileLookup::Read(p) => FileLookupView::Read(p@),
        }
    }
}

/// The file that a request path names under `root`: the path itself, or its
/// `index.html` where it is a directory.
pub open spec fn candidate_path(root: Seq<char>, rel: Seq<char>, is_dir: bool) -> Seq<char> {
    if is_dir {
        joined(joined(root, rel), default_html())
    } else {
        joined(root, rel)
    }
}

/// How a request for `rel` under `root` is served, `is_dir` telling whether
/// `rel` names a directory there. Only `GET` and `HEAD` read files; a path
/// without an extension falls back to `root/index.html`.
pub open spec fn lookup_plan(root: Seq<char>, method: Method, rel: Seq<char>, is_dir: bool) -> FileLookupView {
    if method == Method::Options {
        FileLookupView::Done(empty_reply(STATUS_NO_CONTENT))
    } else if method != Method::Get && method != Method::Head {
        FileLookupView::Done(not_found_reply())
    } else {
        FileLookupView::Read(read_plan(root, method, rel, is_dir))
    }
}

/// What a `GET` or `HEAD` for `rel` under `root` reads.
pub open spec fn read_plan(root: Seq<char>, method: Method, rel: Seq<char>, is_dir: bool) -> ReadPlanView {
    let path = candidate_path(root, rel, is_dir);
    ReadPlanView {
        path,
        fallback: if extension_of(rel).is_none() {
            Some(joined(root, default_html()))
        } else {
            None
        },
        extension: extension_of(path),
        head: method == Method::Head,
    }
}

/// A `200 OK` reply of the given content type, with `body` unless `head`.
pub open spec fn ok_reply(content_type: Seq<char>, body: Seq<u8>, head: bool) -> ReplyView {
    ReplyView {
        status: STATUS_OK,
        content_type: Some(content_type),
        body: if head {
            Seq::empty()
        } else {
            body
        },
    }
}

/// The reply to a planned read: `primary` and `fallback` are what reading the
/// plan's file and its fallback gave (`None` where the read failed or was not
/// made).
pub open spec fn file_reply(plan: ReadPlanView, primary: Option<Seq<u8>>, fallback: Option<Seq<u8>>) -> ReplyView {
    match primary {
        Some(b) => ok_reply(content_type_of(plan.extension), b, plan.head),
        None => if plan.fallback.is_some() && fallback.is_some() {
            ok_reply(content_type_of(Some("html"@)), fallback.unwrap(), plan.head)
        } else {
            not_found_reply()
        },
    }
}

pub open spec fn bytes_view(b: Option<Vec<u8>>) -> Option<Seq<u8>> {
    match b {
        Some(v) => Some(v@),
        None => None,
    }
}

/// Decides how a request for `req_path` (without its leading `/`) under
/// `root` is served; `is_dir` tells whether `join_path(root, req_path)` is a
/// directory.
pub fn plan_file_lookup(root: &str, method: Method, req_path: &str, is_dir: bool) -> (r: FileLookup)
    ensures
        r@ == lookup_plan(root@, method, req_path@, is_dir),
{
    if method == Method::Options {
        return FileLookup::Done(response_with_no_body(STATUS_NO_CONTENT));
    }
    if method != Method::Get && method != Method::Head {
        return FileLookup::Done(not_found());
    }
    let mut path = join_path(root, req_path);
    if is_dir {
        path = join_path(path.as_str(), "index.html");
    }
    let fallback = match extension(req_path) {
        Some(_) => None,
        None => Some(join_path(root, "index.html")),
    };
    let ext = match extension(path.as_str()) {
        Some(e) => Some(String::from_str(e)),
        None => None,
    };
    FileLookup::Read(ReadPlan { path, fallback, extension: ext, head: method == Method::Head })
}

/// Builds the reply to a planned read from what the reads gave: the file's
/// bytes, typed by its extension; else the fallback's bytes as HTML; else
/// `404 Not Found`. A `HEAD` reply carries no body.
pub fn response_file_content(plan: &ReadPlan, primary: Option<Vec<u8>>, fallback: Option<Vec<u8>>) -> (r: Reply)
    ensures
        r@ == file_reply(plan@, bytes_view(primary), bytes_view(fallback)),
{
    let (content_type, body) = match primary {
        Some(b) => {
            let t = match &plan.extension {
                Some(e) => get_content_type(Some(e.as_str())),
                None => get_content_type(None),
            };
            (t, b)
        },
        None => {
            if plan.fallback.is_none() {
                return not_found();
            }
            match fallback {
                Some(b) => (get_content_type(Some("html")), b),
                None => {
                    return not_found();
                },
            }
        },
    };
    let body = if plan.head {
        Vec::new()
    } else {
        body
    };
    let r = Reply { status: STATUS_OK, content_type: Some(String::from_str(content_type)), body };
    assert(r@.body =~= file_reply(plan@, bytes_view(primary), bytes_view(fallback)).body);
    r
}

/// `GET` of a file `root/x` that exists (is read) and is no directory
/// answers `200` with the content type of the file's extension and the
/// file's exact bytes.
pub proof fn lemma_existing_file_served(root: Seq<char>, x: Seq<char>, bytes: Seq<u8>, fallback: Option<Seq<u8>>)
    ensures
        lookup_plan(root, Method::Get, x, false) == FileLookupView::Read(read_plan(root, Method::Get, x, false)),
        read_plan(root, Method::Get, x, false).path == joined(root, x),
        file_reply(read_plan(root, Method::Get, x, false), Some(bytes), fallback) == ok_reply(
            content_type_of(extension_of(joined(root, x))),
            bytes,
            false,
        ),
{
}

/// `GET` of an extensionless path `y` that cannot be read, where
/// `root/index.html` reads as `bytes`, answers `200` with `text/html` and
/// those bytes.
pub proof fn lemma_spa_fallback(root: Seq<char>, y: Seq<char>, is_dir: bool, bytes: Seq<u8>)
    requires
        extension_of(y).is_none(),
    ensures
        lookup_plan(root, Method::Get, y, is_dir) == FileLookupView::Read(read_plan(root, Method::Get, y, is_dir)),
        read_plan(root, Method::Get, y, is_dir).fallback == Some(joined(root, "index.html"@)),
        file_reply(read_plan(root, Method::Get, y, is_dir), None, Some(bytes)) == ok_reply(
            "text/html"@,
            bytes,
            false,
        ),
{
    reveal_strlit("html");
}

/// `GET` of a path `z` with an extension that cannot be read answers `404`
/// with the body `Not Found`, whatever `root/index.html` holds.
pub proof fn lemma_missing_asset_not_found(root: Seq<char>, z: Seq<char>, is_dir: bool, fallback: Option<Seq<u8>>)
    requires
        extension_of(z).is_some(),
    ensures
        lookup_plan(root, Method::Get, z, is_dir) == FileLookupView::Read(read_plan(root, Method::Get, z, is_dir)),
        file_reply(read_plan(root, Method::Get, z, is_dir), None, fallback) == not_found_reply(),
{
}

} // verus!
