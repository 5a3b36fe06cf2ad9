use vstd::prelude::*;

use crate::calculator::{error_text, result_message, result_prefix, CalcError};
use crate::decimal::decimal;
use crate::page::{contains, index_page, lemma_page_shows_state, render_index};
use crate::reply::{is_redirect_home, redirect_home, Reply};
use crate::state::{Counter, FileContent};

verus! {

/// The text logged before a file's content.
pub open spec fn log_prefix() -> Seq<char> {
    "Contenido del archivo: "@
}

/// The home page, showing the counter and the stored file content.
pub fn index(counter: &Counter, file_content: &FileContent) -> (r: Reply)
    ensures
        r is Html,
        r->Html_0@ == index_page(counter@, file_content@),
{
    Reply::Html(render_index(counter.value(), file_content.as_str()))
}

/// Adds one to the counter and sends the client back home.
pub fn increment(counter: &mut Counter) -> (r: Reply)
    requires
        old(counter).count < u32::MAX,
    ensures
        *final(counter) == old(counter).incremented(),
        final(counter)@ == old(counter)@ + 1,
        is_redirect_home(r),
{
    counter.increment();
    redirect_home()
}

/// Answers the file action from the outcome of reading the file: its content,
/// or `None` where it could not be read. On success the reply sends the client
/// home and the second part is the line to log; on failure the reply is a
/// server error and nothing is logged. The content read is not stored: the
/// home page's file section keeps what it held.
pub fn obtener_archivo(read: Option<String>) -> (r: (Reply, Option<String>))
    ensures
        read is Some ==> is_redirect_home(r.0) && r.1 is Some && r.1->Some_0@ == log_prefix()
            + read->Some_0@,
        read is None ==> r.0 is ServerError && r.1 is None,
{
    match read {
        Some(content) => {
            let mut line = String::from_str("Contenido del archivo: ");
            line.append(content.as_str());
            (redirect_home(), Some(line))
        },
        None => (Reply::ServerError, None),
    }
}

/// The calculator's reply: the result written out as `Ok`, or the refusal.
pub fn calculation_reply(outcome: Result<String, CalcError>) -> (r: Reply)
    ensures
        outcome is Ok ==> r is Text && r->Text_0@ == result_prefix() + outcome->Ok_0@,
        outcome is Err ==> r is BadRequest && r->BadRequest_0@ == error_text(outcome->Err_0),
{
    match outcome {
        Ok(rendered) => Reply::Text(result_message(rendered.as_str())),
        Err(e) => Reply::BadRequest(e.message()),
    }
}

/// Starting from a fresh counter, `n` increments leave it at `n`, and the home
/// page then shows `n`, whatever the stored file content.
pub proof fn lemma_increments_from_fresh(n: nat, content: Seq<char>)
    requires
        n <= u32::MAX,
    ensures
        Counter::fresh().after_increments(n)@ == n,
        contains(index_page(Counter::fresh().after_increments(n)@, content), decimal(n)),
    decreases n,
{
    if n > 0 {
        lemma_increments_from_fresh((n - 1) as nat, content);
    }
    lemma_page_shows_state(n, content);
}

} // verus!
