use vstd::prelude::*;

use crate::lsp::{hover_for_word, hover_spec, word_at, word_at_spec};
use crate::queries::{
    CodeLens, CompletionItem, Diagnostic, Location, SpecCodeLens, SpecCompletionItem,
    SpecDiagnostic, SpecLocation, code_lens_spec, code_lenses, completion_items,
    completions_spec, completions_view, definition_spec, diagnostics, diagnostics_spec,
    diagnostics_view, find_definition, find_references, lenses_view, locations_view,
    references_spec,
};
use crate::table::Table;
use crate::text::{chars_of, string_from_chars};

verus! {

// ─── Open documents ──────────────────────────────────────────────────────────

/// The documents open in the editor: each address with its text.
pub struct DocumentStore {
    docs: Table<String>,
}

impl View for DocumentStore {
    type V = Map<Seq<char>, Seq<char>>;

    closed spec fn view(&self) -> Map<Seq<char>, Seq<char>> {
        self.docs@
    }
}

impl DocumentStore {
    /// Every text is short enough to be lexed.
    #[verifier::type_invariant]
    closed spec fn texts_fit(&self) -> bool {
        forall|u: Seq<char>| #[trigger] self.docs@.contains_key(u) ==> self.docs@[u].len() < usize::MAX
    }

    pub fn new() -> (s: Self)
        ensures
            s@ == Map::<Seq<char>, Seq<char>>::empty(),
    {
        DocumentStore { docs: Table::new() }
    }

    /// The text of the document at `uri`, if it is open.
    pub fn get(&self, uri: &str) -> (r: Option<&String>)
        ensures
            match r {
                Some(t) => self@.contains_key(uri@) && self@[uri@] == t@ && t@.len() < usize::MAX,
                None => !self@.contains_key(uri@),
            },
    {
        proof {
            use_type_invariant(self);
        }
        self.docs.get(uri)
    }

    /// Opens the document at `uri` with `text`, or replaces its text.
    pub fn insert(&mut self, uri: String, text: String)
        requires
            text@.len() < usize::MAX,
        ensures
            final(self)@ == old(self)@.insert(uri@, text@),
    {
        proof {
            use_type_invariant(&*self);
        }
        let mut docs = Table::new();
        std::mem::swap(&mut docs, &mut self.docs);
        docs.insert(uri, text);
        self.docs = docs;
    }

    /// Closes the document at `uri`, if it is open.
    pub fn remove(&mut self, uri: &str)
        ensures
            final(self)@ == old(self)@.remove(uri@),
    {
        proof {
            use_type_invariant(&*self);
        }
        let mut docs = Table::new();
        std::mem::swap(&mut docs, &mut self.docs);
        docs.remove(uri);
        self.docs = docs;
    }
}

// ─── Requests and replies ────────────────────────────────────────────────────

/// A message from the editor, as the server tells them apart.
pub enum Request {
    Initialize,
    Shutdown,
    Exit,
    DidOpen { uri: String, text: String },
    DidChange { uri: String, text: String },
    DidSave { uri: String },
    DidClose { uri: String },
    Hover { uri: String, line: usize, col: usize },
    Completion { uri: String },
    Definition { uri: String, line: usize, col: usize },
    References { uri: String, line: usize, col: usize },
    CodeLens { uri: String },
    /// A notification that needs no answer.
    Notification,
    /// Any other method; `has_id` tells a request, which is answered, from a notification.
    Unknown { has_id: bool },
}

/// What the server sends back for a message.
pub enum Reply {
    /// Nothing is sent.
    Silent,
    /// The server's capabilities.
    Capabilities,
    /// A `null` result.
    NullResult,
    /// The server stops.
    Exit,
    /// The diagnostics of the document at `uri`.
    Diagnostics { uri: String, diagnostics: Vec<Diagnostic> },
    Hover(Option<String>),
    Completion(Vec<CompletionItem>),
    Definition(Option<Location>),
    References(Vec<Location>),
    CodeLenses(Vec<CodeLens>),
}

/// The messages whose texts can be lexed.
pub open spec fn request_ok(req: &Request) -> bool {
    match req {
        Request::DidOpen { text, .. } => text@.len() < usize::MAX,
        Request::DidChange { text, .. } => text@.len() < usize::MAX,
        _ => true,
    }
}

/// The hover at (`line`, `col`) of a text.
pub open spec fn hover_at_spec(s: Seq<char>, line: int, col: int) -> Option<Seq<char>> {
    match word_at_spec(s, line, col) {
        Some(w) => hover_spec(w, s, line),
        None => None,
    }
}

pub open spec fn opt_view(o: Option<String>) -> Option<Seq<char>> {
    match o {
        Some(s) => Some(s@),
        None => None,
    }
}

pub open spec fn opt_location(o: Option<Location>) -> Option<SpecLocation> {
    match o {
        Some(l) => Some(l@),
        None => None,
    }
}

/// What the documents `m` answer to `req`, and how they change, where the stub file of the
/// built-in functions was written if `stdlib`.
pub open spec fn handled(
    m: Map<Seq<char>, Seq<char>>,
    stdlib: bool,
    req: Request,
    m2: Map<Seq<char>, Seq<char>>,
    r: Reply,
) -> bool {
    match req {
        Request::Initialize => m2 == m && r is Capabilities,
        Request::Shutdown => m2 == m && r is NullResult,
        Request::Exit => m2 == m && r is Exit,
        Request::Notification => m2 == m && r is Silent,
        Request::Unknown { has_id } => m2 == m && if has_id {
            r is NullResult
        } else {
            r is Silent
        },
        Request::DidOpen { uri, text } | Request::DidChange { uri, text } => m2 == m.insert(
            uri@,
            text@,
        ) && match r {
            Reply::Diagnostics { uri: u, diagnostics: ds } => u@ == uri@ && diagnostics_view(ds@)
                == diagnostics_spec(text@),
            _ => false,
        },
        Request::DidSave { uri } => m2 == m && if m.contains_key(uri@) {
            match r {
                Reply::Diagnostics { uri: u, diagnostics: ds } => u@ == uri@ && diagnostics_view(
                    ds@,
                ) == diagnostics_spec(m[uri@]),
                _ => false,
            }
        } else {
            r is Silent
        },
        Request::DidClose { uri } => m2 == m.remove(uri@) && match r {
            Reply::Diagnostics { uri: u, diagnostics: ds } => u@ == uri@ && ds@.len() == 0,
            _ => false,
        },
        Request::Hover { uri, line, col } => m2 == m && match r {
            Reply::Hover(h) => opt_view(h) == if m.contains_key(uri@) {
                hover_at_spec(m[uri@], line as int, col as int)
            } else {
                None
            },
            _ => false,
        },
        Request::Completion { uri } => m2 == m && match r {
            Reply::Completion(items) => completions_view(items@) == completions_spec(
                if m.contains_key(uri@) {
                    m[uri@]
                } else {
                    Seq::empty()
                },
            ),
            _ => false,
        },
        Request::Definition { uri, line, col } => m2 == m && match r {
            Reply::Definition(l) => opt_location(l) == if m.contains_key(uri@) {
                definition_spec(m[uri@], line as int, col as int, stdlib)
            } else {
                None
            },
            _ => false,
        },
        Request::References { uri, line, col } => m2 == m && match r {
            Reply::References(ls) => locations_view(ls@) == if m.contains_key(uri@) {
                references_spec(m[uri@], line as int, col as int)
            } else {
                Seq::empty()
            },
            _ => false,
        },
        Request::CodeLens { uri } => m2 == m && match r {
            Reply::CodeLenses(ls) => lenses_view(ls@) == if m.contains_key(uri@) {
                code_lens_spec(m[uri@])
            } else {
                Seq::empty()
            },
            _ => false,
        },
    }
}

/// The language server's state: the open documents, and whether the stub file of the
/// built-in functions could be written.
pub struct Server {
    pub documents: DocumentStore,
    pub stdlib_written: bool,
}

fn hover_at(source: &String, line: usize, col: usize) -> (h: Option<String>)
    requires
        source@.len() < usize::MAX,
    ensures
        opt_view(h) == hover_at_spec(source@, line as int, col as int),
{
    let chars = chars_of(source.as_str());
    match word_at(&chars, line, col) {
        Some(w) => {
            let word = string_from_chars(&w);
            hover_for_word(word.as_str(), source.as_str(), line)
        },
        None => None,
    }
}

impl Server {
    pub fn new(stdlib_written: bool) -> (s: Self)
        ensures
            s.documents@ == Map::<Seq<char>, Seq<char>>::empty(),
            s.stdlib_written == stdlib_written,
    {
        Server { documents: DocumentStore::new(), stdlib_written }
    }

    /// Answers one message from the editor.
    pub fn handle(&mut self, req: Request) -> (r: Reply)
        requires
            request_ok(&req),
        ensures
            final(self).stdlib_written == old(self).stdlib_written,
            handled(old(self).documents@, old(self).stdlib_written, req, final(self).documents@, r),
    {
        match req {
            Request::Initialize => Reply::Capabilities,
            Request::Shutdown => Reply::NullResult,
            Request::Exit => Reply::Exit,
            Request::Notification => Reply::Silent,
            Request::Unknown { has_id } => {
                if has_id {
                    Reply::NullResult
                } else {
                    Reply::Silent
                }
            },
            Request::DidOpen { uri, text } | Request::DidChange { uri, text } => {
                let ds = diagnostics(text.as_str());
                let u = uri.clone();
                self.documents.insert(uri, text);
                Reply::Diagnostics { uri: u, diagnostics: ds }
            },
            Request::DidSave { uri } => {
                match self.documents.get(uri.as_str()) {
                    Some(src) => {
                        let ds = diagnostics(src.as_str());
                        Reply::Diagnostics { uri, diagnostics: ds }
                    },
                    None => Reply::Silent,
                }
            },
            Request::DidClose { uri } => {
                self.documents.remove(uri.as_str());
                Reply::Diagnostics { uri, diagnostics: Vec::new() }
            },
            Request::Hover { uri, line, col } => {
                match self.documents.get(uri.as_str()) {
                    Some(src) => Reply::Hover(hover_at(src, line, col)),
                    None => Reply::Hover(None),
                }
            },
            Request::Completion { uri } => {
                match self.documents.get(uri.as_str()) {
                    Some(src) => Reply::Completion(completion_items(src.as_str())),
                    None => {
                        proof {
                            reveal_strlit("");
                        }
                        Reply::Completion(completion_items(""))
                    },
                }
            },
            Request::Definition { uri, line, col } => {
                match self.documents.get(uri.as_str()) {
                    Some(src) => Reply::Definition(
                        find_definition(src.as_str(), line, col, self.stdlib_written),
                    ),
                    None => Reply::Definition(None),
                }
            },
            Request::References { uri, line, col } => {
                match self.documents.get(uri.as_str()) {
                    Some(src) => Reply::References(find_references(src.as_str(), line, col)),
                    None => {
                        let v: Vec<Location> = Vec::new();
                        assert(locations_view(v@) =~= Seq::<SpecLocation>::empty());
                        Reply::References(v)
                    },
                }
            },
            Request::CodeLens { uri } => {
                match self.documents.get(uri.as_str()) {
                    Some(src) => Reply::CodeLenses(code_lenses(src.as_str())),
                    None => {
                        let v: Vec<CodeLens> = Vec::new();
                        assert(lenses_view(v@) =~= Seq::<SpecCodeLens>::empty());
                        Reply::CodeLenses(v)
                    },
                }
            },
        }
    }
}

// ─── What the server reads of what it was sent ───────────────────────────────

/// After a document is opened (or changed) with `text`, a hover on its URI is answered from
/// `text`, and the documents stay as they are.
pub proof fn lemma_hover_reads_opened_text(
    m: Map<Seq<char>, Seq<char>>,
    stdlib: bool,
    uri: String,
    text: String,
    m2: Map<Seq<char>, Seq<char>>,
    r1: Reply,
    uri2: String,
    line: usize,
    col: usize,
    m3: Map<Seq<char>, Seq<char>>,
    r2: Reply,
)
    requires
        handled(m, stdlib, Request::DidOpen { uri, text }, m2, r1) || handled(
            m,
            stdlib,
            Request::DidChange { uri, text },
            m2,
            r1,
        ),
        handled(m2, stdlib, Request::Hover { uri: uri2, line, col }, m3, r2),
        uri2@ == uri@,
    ensures
        m3 == m2,
        r2 matches Reply::Hover(h) && opt_view(h) == hover_at_spec(text@, line as int, col as int),
{
    assert(m2.contains_key(uri@) && m2[uri@] == text@);
}

/// `r` answers a completion, definition, references or code lens `query` on `uri` as the
/// text `text` does (true of any other query).
pub open spec fn answers_as_text(uri: Seq<char>, text: Seq<char>, stdlib: bool, query: Request, r: Reply) -> bool {
    match query {
        Request::Completion { uri: u } => u@ == uri ==> (r matches Reply::Completion(items)
            && completions_view(items@) == completions_spec(text)),
        Request::Definition { uri: u, line, col } => u@ == uri ==> (r matches Reply::Definition(l)
            && opt_location(l) == definition_spec(text, line as int, col as int, stdlib)),
        Request::References { uri: u, line, col } => u@ == uri ==> (r matches Reply::References(ls)
            && locations_view(ls@) == references_spec(text, line as int, col as int)),
        Request::CodeLens { uri: u } => u@ == uri ==> (r matches Reply::CodeLenses(ls)
            && lenses_view(ls@) == code_lens_spec(text)),
        _ => true,
    }
}

/// After a document is opened (or changed) with `text`, its completions, definitions,
/// references and code lenses are those of `text`.
pub proof fn lemma_queries_read_opened_text(
    m: Map<Seq<char>, Seq<char>>,
    stdlib: bool,
    uri: String,
    text: String,
    m2: Map<Seq<char>, Seq<char>>,
    r1: Reply,
    query: Request,
    m3: Map<Seq<char>, Seq<char>>,
    r2: Reply,
)
    requires
        handled(m, stdlib, Request::DidOpen { uri, text }, m2, r1) || handled(
            m,
            stdlib,
            Request::DidChange { uri, text },
            m2,
            r1,
        ),
        handled(m2, stdlib, query, m3, r2),
    ensures
        answers_as_text(uri@, text@, stdlib, query, r2),
{
    assert(m2.contains_key(uri@) && m2[uri@] == text@);
}

/// After a document is closed, a hover on its URI finds nothing, and saving it sends no
/// diagnostics.
pub proof fn lemma_closed_document_is_gone(
    m: Map<Seq<char>, Seq<char>>,
    stdlib: bool,
    uri: String,
    m2: Map<Seq<char>, Seq<char>>,
    r1: Reply,
    query: Request,
    m3: Map<Seq<char>, Seq<char>>,
    r2: Reply,
)
    requires
        handled(m, stdlib, Request::DidClose { uri }, m2, r1),
        handled(m2, stdlib, query, m3, r2),
    ensures
        query matches Request::Hover { uri: u, .. } && u@ == uri@ ==> r2 == Reply::Hover(None),
        query matches Request::DidSave { uri: u } && u@ == uri@ ==> r2 is Silent,
{
    assert(!m2.contains_key(uri@));
}

} // verus!
