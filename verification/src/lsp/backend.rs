//! The documents that are open in an editor, and the answers about them.
use vstd::prelude::*;
use dashmap::DashMap;

verus! {

use crate::host::{Host, Stop};
use crate::lsp::analysis::Document;
use crate::lsp::completion::CompletionItem;
use crate::lsp::format::{TextEdit, formatting, is_format_edit};
use crate::lsp::position::{Position, Range};
use crate::lsp::semantic::encoded;
use crate::lsp::service::{
    Diagnostic, Hover, completion, completions_at, compute_diagnostics, definition_at, diagnostics,
    document_symbol, document_tokens, goto_definition, hover, hover_at, list_ran, opt_list_ran,
    opt_ran, semantic_tokens_full, written,
};
use crate::lsp::symbols::{DocumentSymbol, outline_from, symbols_v};
use crate::maps::{list_v, lookup};
use crate::text::opt_str_v;

/// Makes `dashmap::DashMap` known: a map that several threads can share.
#[verifier::external_type_specification]
#[verifier::external_body]
#[verifier::reject_recursive_types(K)]
#[verifier::reject_recursive_types(V)]
#[verifier::reject_recursive_types(S)]
pub struct ExDashMap<K, V, S>(dashmap::DashMap<K, V, S>);

/// The texts that a map of documents holds, by their addresses.
pub uninterp spec fn open_texts(m: DashMap<String, Document>) -> Map<Seq<char>, Seq<char>>;

/// No texts.
pub open spec fn no_texts() -> Map<Seq<char>, Seq<char>> {
    Map::empty()
}

/// Calls `DashMap::new`, which gives a map without entries.
#[verifier::external_body]
fn no_documents() -> (r: DashMap<String, Document>)
    ensures
        open_texts(r) == no_texts(),
{
    DashMap::new()
}

/// Calls `DashMap::insert`, which puts a value under a key in place of the one that was there.
#[verifier::external_body]
fn put_document(m: &mut DashMap<String, Document>, uri: String, doc: Document)
    ensures
        open_texts(*final(m)) == open_texts(*old(m)).insert(uri@, doc@),
{
    m.insert(uri, doc);
}

/// Calls `DashMap::remove`, which takes the entry of a key out, where there is one.
#[verifier::external_body]
fn remove_document(m: &mut DashMap<String, Document>, uri: &String)
    ensures
        open_texts(*final(m)) == open_texts(*old(m)).remove(uri@),
{
    m.remove(uri);
}

/// Calls `DashMap::get`, which gives the value of a key, and copies its text.
#[verifier::external_body]
fn text_of_document(m: &DashMap<String, Document>, uri: &String) -> (r: Option<String>)
    ensures
        opt_str_v(r) == lookup(open_texts(*m), uri@),
{
    m.get(uri).map(|doc| doc.source.clone())
}

/// The documents that are open.
pub struct Backend {
    documents: DashMap<String, Document>,
}

impl View for Backend {
    type V = Map<Seq<char>, Seq<char>>;

    closed spec fn view(&self) -> Map<Seq<char>, Seq<char>> {
        open_texts(self.documents)
    }
}

impl Backend {
    /// No document is open.
    pub fn new() -> (r: Self)
        ensures
            r@ == no_texts(),
    {
        Backend { documents: no_documents() }
    }

    /// A document is opened with a text.
    pub fn did_open(&mut self, uri: &str, text: String)
        ensures
            final(self)@ == old(self)@.insert(uri@, text@),
    {
        put_document(&mut self.documents, uri.to_owned(), Document::new(text));
    }

    /// A document has been changed. Each change is a whole new text, and the first one counts.
    pub fn did_change(&mut self, uri: &str, changes: Vec<String>)
        ensures
            final(self)@ == if changes.len() > 0 {
                old(self)@.insert(uri@, changes@[0]@)
            } else {
                old(self)@
            },
    {
        if changes.len() > 0 {
            put_document(&mut self.documents, uri.to_owned(), Document::new(changes[0].clone()));
        }
    }

    /// A document has been closed.
    pub fn did_close(&mut self, uri: &str)
        ensures
            final(self)@ == old(self)@.remove(uri@),
    {
        remove_document(&mut self.documents, &uri.to_owned());
    }

    /// The text of an open document.
    pub fn text(&self, uri: &str) -> (r: Option<String>)
        ensures
            opt_str_v(r) == lookup(self@, uri@),
    {
        text_of_document(&self.documents, &uri.to_owned())
    }

    /// What is shown at a place of an open document.
    pub fn hover(&self, uri: &str, pos: Position, host: &Host, fuel: u64) -> (r: Result<
        Option<Hover>,
        Stop,
    >)
        ensures
            opt_ran(r) == match lookup(self@, uri@) {
                Some(src) => hover_at(host@, uri@, src, pos, fuel as nat),
                None => Ok(None),
            },
    {
        match self.text(uri) {
            Some(source) => hover(&source, uri, pos, host, fuel),
            None => Ok(None),
        }
    }

    /// What is offered at a place of an open document.
    pub fn completion(&self, uri: &str, pos: Position, host: &Host, fuel: u64) -> (r: Result<
        Option<Vec<CompletionItem>>,
        Stop,
    >)
        ensures
            opt_list_ran(r) == match lookup(self@, uri@) {
                Some(src) => completions_at(host@, uri@, src, pos, fuel as nat),
                None => Ok(None),
            },
    {
        match self.text(uri) {
            Some(source) => completion(&source, uri, pos, host, fuel),
            None => Ok(None),
        }
    }

    /// Where the name at a place of an open document stands first elsewhere.
    pub fn goto_definition(&self, uri: &str, pos: Position) -> (r: Option<Range>)
        ensures
            r == match lookup(self@, uri@) {
                Some(src) => definition_at(uri@, src, pos),
                None => None,
            },
    {
        match self.text(uri) {
            Some(source) => goto_definition(&source, uri, pos),
            None => None,
        }
    }

    /// The outline of an open document.
    pub fn document_symbol(&self, uri: &str) -> (r: Option<Vec<DocumentSymbol>>)
        ensures
            match r {
                Some(v) => lookup(self@, uri@) matches Some(src) && (written(uri@, src) matches Some(
                    m,
                ) && symbols_v(v@) == outline_from(src, m.items, 0)),
                None => lookup(self@, uri@) matches Some(src) ==> written(uri@, src) is None,
            },
    {
        match self.text(uri) {
            Some(source) => document_symbol(&source, uri),
            None => None,
        }
    }

    /// The semantic tokens of an open document.
    pub fn semantic_tokens_full(&self, uri: &str) -> (r: Option<Vec<u32>>)
        ensures
            match r {
                Some(v) => lookup(self@, uri@) matches Some(src) && (document_tokens(
                    src,
                ) matches Some(ts) && v@ == encoded(ts)),
                None => lookup(self@, uri@) matches Some(src) ==> document_tokens(src) is None,
            },
    {
        match self.text(uri) {
            Some(source) => semantic_tokens_full(&source),
            None => None,
        }
    }

    /// The edit that formats an open document.
    pub fn formatting(&self, uri: &str) -> (r: Option<TextEdit>)
        ensures
            match r {
                Some(e) => lookup(self@, uri@) matches Some(src) && is_format_edit(src, e),
                None => lookup(self@, uri@) is None,
            },
    {
        match self.text(uri) {
            Some(source) => Some(formatting(&source)),
            None => None,
        }
    }

    /// The errors of an open document, and none for one that is not open.
    pub fn diagnostic(&self, uri: &str, host: &Host, fuel: u64) -> (r: Result<
        Vec<Diagnostic>,
        Stop,
    >)
        ensures
            list_ran(r) == match lookup(self@, uri@) {
                Some(src) => diagnostics(host@, uri@, src, fuel as nat),
                None => Ok(Seq::empty()),
            },
    {
        match self.text(uri) {
            Some(source) => compute_diagnostics(uri, &source, host, fuel),
            None => {
                let none: Vec<Diagnostic> = Vec::new();
                assert(list_v(none@) =~= Seq::empty());
                Ok(none)
            },
        }
    }
}

} // verus!
