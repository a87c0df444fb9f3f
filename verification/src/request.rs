//! The request line: the first line of a request, which names a method, a
//! path and a protocol version.

use crate::text::{is_run, is_word, lemma_words_are_words, places, word_spans, words};
use vstd::prelude::*;

verus! {

/// A request line taken apart.
#[derive(Debug)]
pub struct HttpRequest {
    /// The method, such as `GET`.
    pub method: String,
    /// The path asked for.
    pub path: String,
    /// The protocol version, such as `HTTP/1.1`.
    pub version: String,
}

impl HttpRequest {
    /// The three parts in the order of the line.
    pub open spec fn parts(self) -> Seq<Seq<char>> {
        seq![self.method@, self.path@, self.version@]
    }

    /// Each part is a word: not empty, and free of white space.
    pub open spec fn wf(self) -> bool {
        is_word(self.method@) && is_word(self.path@) && is_word(self.version@)
    }
}

/// Takes a request line apart. The line is well formed if it holds exactly
/// three words, with any white space between and around them: these are the
/// method, the path and the version. Any other line is refused.
pub fn parse_request_line(request_line: &str) -> (request: Option<HttpRequest>)
    ensures
        request is Some <==> words(request_line@).len() == 3,
        request is Some ==> request->0.parts() == words(request_line@) && request->0.wf(),
{
    let spans = word_spans(request_line);
    if spans.len() != 3 {
        return None;
    }
    proof {
        assert(is_run(request_line@, places(spans@)[0].0, places(spans@)[0].1));
        assert(is_run(request_line@, places(spans@)[1].0, places(spans@)[1].1));
        assert(is_run(request_line@, places(spans@)[2].0, places(spans@)[2].1));
    }
    let (method_from, method_to) = spans[0];
    let (path_from, path_to) = spans[1];
    let (version_from, version_to) = spans[2];
    let request = HttpRequest {
        method: request_line.substring_char(method_from, method_to).to_owned(),
        path: request_line.substring_char(path_from, path_to).to_owned(),
        version: request_line.substring_char(version_from, version_to).to_owned(),
    };
    proof {
        assert(request.parts() =~= words(request_line@));
        lemma_words_are_words(request_line@, 0);
        lemma_words_are_words(request_line@, 1);
        lemma_words_are_words(request_line@, 2);
    }
    Some(request)
}

} // verus!
