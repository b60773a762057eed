//! What the texts of the scripts say, for every name that is put into them.

use crate::progress_model::{capture_after, Capture, PageStep};
use crate::scripts::{
    blob_worker_script, blob_worker_url, capture_script, captured_stages, collect_script, escaped,
    escaped_all, recorded_stages_are_read_back, start_progress_capture, stop_progress_capture,
    unescaped, CAPTURE_EVENT, CAPTURE_FLOW, CAPTURE_HEAD, CAPTURE_INSTALL, CAPTURE_LISTENER,
    CAPTURE_STAGE, CAPTURE_TAIL, COLLECT_EVENT, COLLECT_HEAD, COLLECT_STAGES, COLLECT_TAIL,
    TX_PROGRESS_EVENT, WORKER_FETCH, WORKER_FILE, WORKER_HEAD, WORKER_TAIL,
};
use crate::text::{fields, fields_join_back, joined, views};
use crate::text_laws::commas;
use vstd::prelude::*;
use vstd::string::*;

verus! {

/// Whether a text begins with another.
pub open spec fn begins(text: Seq<char>, with: Seq<char>) -> bool {
    text.len() >= with.len() && text.take(with.len() as int) == with
}

/// Whether a text ends with another.
pub open spec fn ends(text: Seq<char>, with: Seq<char>) -> bool {
    text.len() >= with.len() && text.skip(text.len() - with.len()) == with
}

/// The worker script fetches the file that was asked for from the workers of the origin
/// that was asked for, and has the circuits of that origin: the scripts of any two
/// origins and files are the same text but for these.
pub proof fn the_worker_script_fetches_what_was_asked_for(
    origin: &str,
    file: &str,
    script: String,
    other_origin: &str,
    other_file: &str,
    other: String,
) -> (pieces: (Seq<char>, Seq<char>, Seq<char>, Seq<char>))
    requires
        call_ensures(blob_worker_script, (origin, file), script),
        call_ensures(blob_worker_script, (other_origin, other_file), other),
    ensures
        script@ == pieces.0 + origin@ + pieces.1 + file@ + pieces.2 + origin@ + pieces.3,
        other@ == pieces.0 + other_origin@ + pieces.1 + other_file@ + pieces.2 + other_origin@
            + pieces.3,
        ends(pieces.0, "const base = '"@),
        begins(pieces.1, "/workers';"@),
        ends(pieces.1, "const url = base + '/"@),
        begins(pieces.2, "';"@),
        ends(pieces.2, "\"'"@),
        begins(pieces.3, "/circuits/'\""@),
{
    let pieces = (WORKER_HEAD@, WORKER_FILE@, WORKER_FETCH@, WORKER_TAIL@);
    reveal_strlit("const base = '");
    reveal_strlit("/workers';");
    reveal_strlit("const url = base + '/");
    reveal_strlit("';");
    reveal_strlit("\"'");
    reveal_strlit("/circuits/'\"");
    lemma_worker_pieces();
    pieces
}

proof fn lemma_worker_pieces()
    ensures
        ends(WORKER_HEAD@, "const base = '"@),
        begins(WORKER_FILE@, "/workers';"@),
        ends(WORKER_FILE@, "const url = base + '/"@),
        begins(WORKER_FETCH@, "';"@),
        ends(WORKER_FETCH@, "\"'"@),
        begins(WORKER_TAIL@, "/circuits/'\""@),
{
    reveal_strlit("const base = '");
    reveal_strlit("/workers';");
    reveal_strlit("const url = base + '/");
    reveal_strlit("';");
    reveal_strlit("\"'");
    reveal_strlit("/circuits/'\"");
    reveal_strlit(r#"(async function () {
             const base = '"#);
    reveal_strlit(r#"/workers';
             const url = base + '/"#);
    reveal_strlit(r#"';
             let src = await new Promise(function (resolve, reject) {
               const xhr = new XMLHttpRequest();
               xhr.open('GET', url, true);
               xhr.onload = function () {
                 if (xhr.status >= 200 && xhr.status < 300) resolve(xhr.responseText);
                 else reject(new Error('GET ' + url + ': ' + xhr.status));
               };
               xhr.onerror = function () { reject(new Error('network error for ' + url)); };
               xhr.send();
             });
             src = src.replace(/from '\.\/([^']+)'/g, "from '" + base + "/$1'");
             src = src.replace(
               /new URL\('\.\.\/circuits\/', import\.meta\.url\)\.href/g,
               "'"#);
    reveal_strlit(r#"/circuits/'"
             );
             const blob = new Blob([src], { type: 'application/javascript' });
             return URL.createObjectURL(blob);
           })()"#);
    assert(WORKER_HEAD@.skip(WORKER_HEAD@.len() - "const base = '"@.len()) =~= "const base = '"@);
    assert(WORKER_FILE@.take("/workers';"@.len() as int) =~= "/workers';"@);
    assert(WORKER_FILE@.skip(WORKER_FILE@.len() - "const url = base + '/"@.len())
        =~= "const url = base + '/"@);
    assert(WORKER_FETCH@.take(2) =~= "';"@);
    assert(WORKER_FETCH@.skip(WORKER_FETCH@.len() - 2) =~= "\"'"@);
    assert(WORKER_TAIL@.take("/circuits/'\""@.len() as int) =~= "/circuits/'\""@);
}

/// Scripts for the same origin are the same exactly where the files are, and scripts
/// for the same file exactly where the origins are.
pub proof fn worker_scripts_differ_as_what_they_fetch(
    origin: &str,
    file: &str,
    script: String,
    other_origin: &str,
    other_file: &str,
    other: String,
)
    requires
        call_ensures(blob_worker_script, (origin, file), script),
        call_ensures(blob_worker_script, (other_origin, other_file), other),
        origin@ == other_origin@ || file@ == other_file@,
    ensures
        script@ == other@ <==> origin@ == other_origin@ && file@ == other_file@,
{
    let (a, b, c, d) = the_worker_script_fetches_what_was_asked_for(
        origin,
        file,
        script,
        other_origin,
        other_file,
        other,
    );
    if script@ == other@ {
        let fixed = a.len() + b.len() + c.len() + d.len();
        assert(script@.len() == fixed + 2 * origin@.len() + file@.len());
        assert(other@.len() == fixed + 2 * other_origin@.len() + other_file@.len());
        assert(origin@.len() == other_origin@.len());
        assert(file@.len() == other_file@.len());
        assert(origin@ =~= script@.subrange(a.len() as int, (a.len() + origin@.len()) as int));
        assert(other_origin@ =~= other@.subrange(
            a.len() as int,
            (a.len() + origin@.len()) as int,
        ));
        let at = a.len() + origin@.len() + b.len();
        assert(file@ =~= script@.subrange(at as int, (at + file@.len()) as int));
        assert(other_file@ =~= other@.subrange(at as int, (at + file@.len()) as int));
    }
}

/// A worker's URL is the text that its script gave; where it gave none, or failed, what
/// is said is what taking it for granted says, with the error.
pub proof fn a_worker_url_is_what_its_script_gave(
    outcome: Result<Option<String>, String>,
    taken: Result<String, String>,
)
    requires
        call_ensures(blob_worker_url, (outcome,), taken),
    ensures
        taken is Ok <==> outcome matches Ok(Some(_)),
        outcome matches Ok(Some(url)) ==> (taken matches Ok(text) && text@ == url@),
        outcome matches Ok(None) ==> (taken matches Err(said) && said@
            == "called `Option::unwrap()` on a `None` value"@),
        outcome matches Err(error) ==> (taken matches Err(said) && said@
            == "called `Result::unwrap()` on an `Err` value"@ + ": "@ + error@),
{
}

/// The script that starts recording names its capture id, and it alone: it empties the
/// record of that id, keeps its listener under that id, listens to the flow of that name,
/// records under that id, and installs the listener of that id for progress events. The
/// scripts of any two ids are the same text but for the id.
pub proof fn the_capture_script_names_its_id(
    id: &str,
    script: String,
    other_id: &str,
    other: String,
) -> (pieces: (Seq<char>, Seq<char>, Seq<char>, Seq<char>, Seq<char>, Seq<char>))
    requires
        call_ensures(start_progress_capture, (id,), script),
        call_ensures(start_progress_capture, (other_id,), other),
    ensures
        script@ == pieces.0 + id@ + pieces.1 + id@ + pieces.2 + id@ + pieces.3 + id@ + pieces.4
            + id@ + pieces.5,
        other@ == pieces.0 + other_id@ + pieces.1 + other_id@ + pieces.2 + other_id@ + pieces.3
            + other_id@ + pieces.4 + other_id@ + pieces.5,
        ends(pieces.0, "globalThis.__e2eStages['"@),
        begins(pieces.1, "'] = [];"@),
        ends(pieces.1, "globalThis.__e2eProgressListeners['"@),
        begins(pieces.2, "'] = function (ev) {"@),
        ends(pieces.2, "ev.detail.flow === '"@),
        begins(pieces.3, "' && ev.detail.stage) {"@),
        ends(pieces.3, "globalThis.__e2eStages['"@),
        begins(pieces.4, "'].push(ev.detail.stage);"@),
        ends(
            pieces.4,
            "window.addEventListener('stellar-private-payments:tx-progress', globalThis.__e2eProgressListeners['"@,
        ),
        begins(pieces.5, "']);"@),
{
    let pieces = (
        CAPTURE_HEAD@,
        CAPTURE_LISTENER@,
        CAPTURE_FLOW@,
        CAPTURE_STAGE@,
        CAPTURE_EVENT@ + TX_PROGRESS_EVENT@ + CAPTURE_INSTALL@,
        CAPTURE_TAIL@,
    );
    lemma_capture_pieces();
    assert(script@ =~= pieces.0 + id@ + pieces.1 + id@ + pieces.2 + id@ + pieces.3 + id@
        + pieces.4 + id@ + pieces.5);
    assert(other@ =~= pieces.0 + other_id@ + pieces.1 + other_id@ + pieces.2 + other_id@
        + pieces.3 + other_id@ + pieces.4 + other_id@ + pieces.5);
    pieces
}

proof fn lemma_capture_pieces()
    ensures
        ends(CAPTURE_HEAD@, "globalThis.__e2eStages['"@),
        begins(CAPTURE_LISTENER@, "'] = [];"@),
        ends(CAPTURE_LISTENER@, "globalThis.__e2eProgressListeners['"@),
        begins(CAPTURE_FLOW@, "'] = function (ev) {"@),
        ends(CAPTURE_FLOW@, "ev.detail.flow === '"@),
        begins(CAPTURE_STAGE@, "' && ev.detail.stage) {"@),
        ends(CAPTURE_STAGE@, "globalThis.__e2eStages['"@),
        begins(
            CAPTURE_EVENT@ + TX_PROGRESS_EVENT@ + CAPTURE_INSTALL@,
            "'].push(ev.detail.stage);"@,
        ),
        ends(
            CAPTURE_EVENT@ + TX_PROGRESS_EVENT@ + CAPTURE_INSTALL@,
            "window.addEventListener('stellar-private-payments:tx-progress', globalThis.__e2eProgressListeners['"@,
        ),
        begins(CAPTURE_TAIL@, "']);"@),
{
    reveal_strlit(r#"(function () {
             globalThis.__e2eStages = globalThis.__e2eStages || {};
             globalThis.__e2eProgressListeners = globalThis.__e2eProgressListeners || {};
             globalThis.__e2eStages['"#);
    reveal_strlit(r#"'] = [];
             globalThis.__e2eProgressListeners['"#);
    reveal_strlit(r#"'] = function (ev) {
               if (ev && ev.detail && ev.detail.flow === '"#);
    reveal_strlit(r#"' && ev.detail.stage) {
                 globalThis.__e2eStages['"#);
    reveal_strlit(r#"'].push(ev.detail.stage);
               }
             };
             window.addEventListener('"#);
    reveal_strlit("stellar-private-payments:tx-progress");
    reveal_strlit(r#"', globalThis.__e2eProgressListeners['"#);
    reveal_strlit(r#"']);
           })()"#);
    reveal_strlit("globalThis.__e2eStages['");
    reveal_strlit("'] = [];");
    reveal_strlit("globalThis.__e2eProgressListeners['");
    reveal_strlit("'] = function (ev) {");
    reveal_strlit("ev.detail.flow === '");
    reveal_strlit("' && ev.detail.stage) {");
    reveal_strlit("'].push(ev.detail.stage);");
    reveal_strlit(
        "window.addEventListener('stellar-private-payments:tx-progress', globalThis.__e2eProgressListeners['",
    );
    reveal_strlit("']);");
    let stages = "globalThis.__e2eStages['"@;
    let listeners = "globalThis.__e2eProgressListeners['"@;
    assert(CAPTURE_HEAD@.skip(CAPTURE_HEAD@.len() - stages.len()) =~= stages);
    assert(CAPTURE_LISTENER@.take(8) =~= "'] = [];"@);
    assert(CAPTURE_LISTENER@.skip(CAPTURE_LISTENER@.len() - listeners.len()) =~= listeners);
    assert(CAPTURE_FLOW@.take("'] = function (ev) {"@.len() as int) =~= "'] = function (ev) {"@);
    assert(CAPTURE_FLOW@.skip(CAPTURE_FLOW@.len() - "ev.detail.flow === '"@.len())
        =~= "ev.detail.flow === '"@);
    assert(CAPTURE_STAGE@.take("' && ev.detail.stage) {"@.len() as int)
        =~= "' && ev.detail.stage) {"@);
    assert(CAPTURE_STAGE@.skip(CAPTURE_STAGE@.len() - stages.len()) =~= stages);
    let event = CAPTURE_EVENT@ + TX_PROGRESS_EVENT@ + CAPTURE_INSTALL@;
    assert(event.take("'].push(ev.detail.stage);"@.len() as int) =~= "'].push(ev.detail.stage);"@);
    let install =
        "window.addEventListener('stellar-private-payments:tx-progress', globalThis.__e2eProgressListeners['"@;
    assert(event.skip(event.len() - install.len()) =~= install);
    assert(CAPTURE_TAIL@.take(4) =~= "']);"@);
}

/// The script that stops recording names its capture id, and it alone: it takes off the
/// listener that is kept under that id, and gives the record of that id. The scripts of
/// any two ids are the same text but for the id.
pub proof fn the_collecting_script_names_its_id(
    id: &str,
    script: String,
    other_id: &str,
    other: String,
) -> (pieces: (Seq<char>, Seq<char>, Seq<char>))
    requires
        call_ensures(stop_progress_capture, (id,), script),
        call_ensures(stop_progress_capture, (other_id,), other),
    ensures
        script@ == pieces.0 + id@ + pieces.1 + id@ + pieces.2,
        other@ == pieces.0 + other_id@ + pieces.1 + other_id@ + pieces.2,
        ends(pieces.0, "const listener = (globalThis.__e2eProgressListeners || {})['"@),
        begins(pieces.1, "'];"@),
        ends(
            pieces.1,
            "window.removeEventListener('stellar-private-payments:tx-progress', listener);\n             return ((globalThis.__e2eStages || {})['"@,
        ),
        begins(pieces.2, "'] || [])"@),
{
    let pieces = (
        COLLECT_HEAD@,
        COLLECT_EVENT@ + TX_PROGRESS_EVENT@ + COLLECT_STAGES@,
        COLLECT_TAIL@,
    );
    lemma_collect_pieces();
    assert(script@ =~= pieces.0 + id@ + pieces.1 + id@ + pieces.2);
    assert(other@ =~= pieces.0 + other_id@ + pieces.1 + other_id@ + pieces.2);
    pieces
}

proof fn lemma_collect_pieces()
    ensures
        ends(COLLECT_HEAD@, "const listener = (globalThis.__e2eProgressListeners || {})['"@),
        begins(COLLECT_EVENT@ + TX_PROGRESS_EVENT@ + COLLECT_STAGES@, "'];"@),
        ends(
            COLLECT_EVENT@ + TX_PROGRESS_EVENT@ + COLLECT_STAGES@,
            "window.removeEventListener('stellar-private-payments:tx-progress', listener);\n             return ((globalThis.__e2eStages || {})['"@,
        ),
        begins(COLLECT_TAIL@, "'] || [])"@),
{
    reveal_strlit(r#"(function () {
             const listener = (globalThis.__e2eProgressListeners || {})['"#);
    reveal_strlit(r#"'];
             if (listener) window.removeEventListener('"#);
    reveal_strlit("stellar-private-payments:tx-progress");
    reveal_strlit(r#"', listener);
             return ((globalThis.__e2eStages || {})['"#);
    reveal_strlit(r#"'] || []).map(function (stage) {
               return String(stage).replace(/%/g, '%25').replace(/,/g, '%2C');
             }).join(',');
           })()"#);
    reveal_strlit("const listener = (globalThis.__e2eProgressListeners || {})['");
    reveal_strlit("'];");
    reveal_strlit(
        "window.removeEventListener('stellar-private-payments:tx-progress', listener);\n             return ((globalThis.__e2eStages || {})['",
    );
    reveal_strlit("'] || [])");
    let listener = "const listener = (globalThis.__e2eProgressListeners || {})['"@;
    assert(COLLECT_HEAD@.skip(COLLECT_HEAD@.len() - listener.len()) =~= listener);
    let middle = COLLECT_EVENT@ + TX_PROGRESS_EVENT@ + COLLECT_STAGES@;
    assert(middle.take(3) =~= "'];"@);
    let remove =
        "window.removeEventListener('stellar-private-payments:tx-progress', listener);\n             return ((globalThis.__e2eStages || {})['"@;
    assert(middle.skip(middle.len() - remove.len()) =~= remove);
    assert(COLLECT_TAIL@.take(9) =~= "'] || [])"@);
}

/// A text split at its quotes: what stands outside quotes and what stands inside, in
/// turn.
pub open spec fn quoted(text: Seq<char>) -> Seq<Seq<char>>
    decreases text.len(),
{
    if text.len() == 0 {
        seq![Seq::empty()]
    } else {
        let before = quoted(text.drop_last());
        if text.last() == '\'' {
            before.push(Seq::empty())
        } else {
            before.drop_last().push(before.last().push(text.last()))
        }
    }
}

/// Whether a script names one thing behind a piece of code: there is a name in quotes
/// behind that code, and wherever there is, it is this one.
pub open spec fn names(script: Seq<char>, code: Seq<char>, name: Seq<char>) -> bool {
    let parts = quoted(script);
    &&& exists|k: int|
        0 <= k < parts.len() - 1 && k % 2 == 0 && ends(#[trigger] parts[k], code)
    &&& forall|k: int|
        0 <= k < parts.len() - 1 && k % 2 == 0 && ends(#[trigger] parts[k], code) ==> parts[k + 1]
            == name
}

/// Whether a script starts recording under an id the stages of the flow of that name.
pub open spec fn starts_recording(script: Seq<char>, id: Seq<char>) -> bool {
    &&& names(script, "ev.detail.flow === "@, id)
    &&& names(script, "globalThis.__e2eStages["@, id)
    &&& names(script, "globalThis.__e2eProgressListeners["@, id)
    &&& names(script, "window.addEventListener("@, "stellar-private-payments:tx-progress"@)
}

/// Whether a script stops recording under an id and gives what is recorded under it.
pub open spec fn stops_recording(script: Seq<char>, id: Seq<char>) -> bool {
    &&& names(script, "const listener = (globalThis.__e2eProgressListeners || {})["@, id)
    &&& names(script, "return ((globalThis.__e2eStages || {})["@, id)
    &&& names(script, "window.removeEventListener("@, "stellar-private-payments:tx-progress"@)
}

/// What evaluating a script makes of what the page has under an id.
pub open spec fn evaluated(id: Seq<char>, capture: Capture, script: Seq<char>) -> Capture {
    if starts_recording(script, id) {
        Capture { record: Seq::empty(), listeners: capture.listeners + 1, last_is_on: true }
    } else if stops_recording(script, id) && capture.last_is_on {
        Capture { listeners: (capture.listeners - 1) as nat, last_is_on: false, ..capture }
    } else {
        capture
    }
}

proof fn lemma_quoted_nonempty(text: Seq<char>)
    ensures
        quoted(text).len() >= 1,
    decreases text.len(),
{
    if text.len() > 0 {
        lemma_quoted_nonempty(text.drop_last());
    }
}

proof fn lemma_quoted_plain(text: Seq<char>)
    requires
        !text.contains('\''),
    ensures
        quoted(text) == seq![text],
    decreases text.len(),
{
    if text.len() > 0 {
        let front = text.drop_last();
        assert forall|i: int| 0 <= i < front.len() implies front[i] != '\'' by {
            assert(text.contains(text[i]));
        }
        lemma_quoted_plain(front);
        assert(text.contains(text.last()));
        assert(front.push(text.last()) =~= text);
        assert(quoted(text) =~= seq![text]);
    } else {
        assert(text =~= Seq::empty());
    }
}

proof fn lemma_quoted_join(a: Seq<char>, b: Seq<char>)
    ensures
        quoted(a + seq!['\''] + b) == quoted(a) + quoted(b),
    decreases b.len(),
{
    let whole = a + seq!['\''] + b;
    lemma_quoted_nonempty(a);
    lemma_quoted_nonempty(b);
    if b.len() == 0 {
        assert(whole.drop_last() =~= a);
        assert(quoted(whole) =~= quoted(a) + quoted(b));
    } else {
        let front = b.drop_last();
        lemma_quoted_join(a, front);
        lemma_quoted_nonempty(front);
        assert(whole.drop_last() =~= a + seq!['\''] + front);
        assert(whole.last() == b.last());
        assert(quoted(whole) =~= quoted(a) + quoted(b));
    }
}

proof fn lemma_quoted_step(part: Seq<char>, rest: Seq<char>)
    requires
        !part.contains('\''),
    ensures
        quoted(part + seq!['\''] + rest) == seq![part] + quoted(rest),
{
    lemma_quoted_plain(part);
    lemma_quoted_join(part, rest);
}

proof fn lemma_ends_not(text: Seq<char>, with: Seq<char>, back: int)
    requires
        0 < back <= text.len(),
        back <= with.len(),
        text[text.len() - back] != with[with.len() - back],
    ensures
        !ends(text, with),
{
    if ends(text, with) {
        assert(text.skip(text.len() - with.len())[with.len() - back] == text[text.len() - back]);
    }
}

/// The code of the capture script, between its names.
#[verifier::opaque]
spec fn capture_code() -> Seq<Seq<char>> {
    seq![
        r#"(function () {
             globalThis.__e2eStages = globalThis.__e2eStages || {};
             globalThis.__e2eProgressListeners = globalThis.__e2eProgressListeners || {};
             globalThis.__e2eStages["#@,
        r#"] = [];
             globalThis.__e2eProgressListeners["#@,
        r#"] = function (ev) {
               if (ev && ev.detail && ev.detail.flow === "#@,
        r#" && ev.detail.stage) {
                 globalThis.__e2eStages["#@,
        r#"].push(ev.detail.stage);
               }
             };
             window.addEventListener("#@,
        r#", globalThis.__e2eProgressListeners["#@,
        r#"]);
           })()"#@,
    ]
}

proof fn lemma_capture_code()
    ensures
        CAPTURE_HEAD@ == capture_code()[0] + seq!['\''],
        !capture_code()[0].contains('\''),
        CAPTURE_LISTENER@ == seq!['\''] + capture_code()[1] + seq!['\''],
        !capture_code()[1].contains('\''),
        CAPTURE_FLOW@ == seq!['\''] + capture_code()[2] + seq!['\''],
        !capture_code()[2].contains('\''),
        CAPTURE_STAGE@ == seq!['\''] + capture_code()[3] + seq!['\''],
        !capture_code()[3].contains('\''),
        CAPTURE_EVENT@ == seq!['\''] + capture_code()[4] + seq!['\''],
        !capture_code()[4].contains('\''),
        CAPTURE_INSTALL@ == seq!['\''] + capture_code()[5] + seq!['\''],
        !capture_code()[5].contains('\''),
        CAPTURE_TAIL@ == seq!['\''] + capture_code()[6],
        !capture_code()[6].contains('\''),
{
    reveal(capture_code);
    reveal_strlit(r#"(function () {
             globalThis.__e2eStages = globalThis.__e2eStages || {};
             globalThis.__e2eProgressListeners = globalThis.__e2eProgressListeners || {};
             globalThis.__e2eStages["#);
    reveal_strlit(r#"(function () {
             globalThis.__e2eStages = globalThis.__e2eStages || {};
             globalThis.__e2eProgressListeners = globalThis.__e2eProgressListeners || {};
             globalThis.__e2eStages['"#);
    reveal_strlit(r#"] = [];
             globalThis.__e2eProgressListeners["#);
    reveal_strlit(r#"'] = [];
             globalThis.__e2eProgressListeners['"#);
    reveal_strlit(r#"] = function (ev) {
               if (ev && ev.detail && ev.detail.flow === "#);
    reveal_strlit(r#"'] = function (ev) {
               if (ev && ev.detail && ev.detail.flow === '"#);
    reveal_strlit(r#" && ev.detail.stage) {
                 globalThis.__e2eStages["#);
    reveal_strlit(r#"' && ev.detail.stage) {
                 globalThis.__e2eStages['"#);
    reveal_strlit(r#"].push(ev.detail.stage);
               }
             };
             window.addEventListener("#);
    reveal_strlit(r#"'].push(ev.detail.stage);
               }
             };
             window.addEventListener('"#);
    reveal_strlit(r#", globalThis.__e2eProgressListeners["#);
    reveal_strlit(r#"', globalThis.__e2eProgressListeners['"#);
    reveal_strlit(r#"]);
           })()"#);
    reveal_strlit(r#"']);
           })()"#);
    assert(CAPTURE_HEAD@ =~= capture_code()[0] + seq!['\'']);
    assert(CAPTURE_LISTENER@ =~= seq!['\''] + capture_code()[1] + seq!['\'']);
    assert(CAPTURE_FLOW@ =~= seq!['\''] + capture_code()[2] + seq!['\'']);
    assert(CAPTURE_STAGE@ =~= seq!['\''] + capture_code()[3] + seq!['\'']);
    assert(CAPTURE_EVENT@ =~= seq!['\''] + capture_code()[4] + seq!['\'']);
    assert(CAPTURE_INSTALL@ =~= seq!['\''] + capture_code()[5] + seq!['\'']);
    assert(CAPTURE_TAIL@ =~= seq!['\''] + capture_code()[6]);
}

/// A text of thirteen parts with quotes between them has these parts.
proof fn lemma_quoted_thirteen(c: Seq<Seq<char>>)
    requires
        c.len() == 13,
        forall|i: int| 0 <= i < 13 ==> !(#[trigger] c[i]).contains('\''),
    ensures
        quoted(
            c[0] + seq!['\''] + (c[1] + seq!['\''] + (c[2] + seq!['\''] + (c[3] + seq!['\''] + (c[4]
                + seq!['\''] + (c[5] + seq!['\''] + (c[6] + seq!['\''] + (c[7] + seq!['\''] + (c[8]
                + seq!['\''] + (c[9] + seq!['\''] + (c[10] + seq!['\''] + (c[11] + seq!['\'']
                + c[12]))))))))))),
        ) == c,
{
    let q = seq!['\''];
    let t11 = c[11] + q + c[12];
    let t10 = c[10] + q + t11;
    let t9 = c[9] + q + t10;
    let t8 = c[8] + q + t9;
    let t7 = c[7] + q + t8;
    let t6 = c[6] + q + t7;
    let t5 = c[5] + q + t6;
    let t4 = c[4] + q + t5;
    let t3 = c[3] + q + t4;
    let t2 = c[2] + q + t3;
    let t1 = c[1] + q + t2;
    lemma_quoted_plain(c[12]);
    lemma_quoted_step(c[11], c[12]);
    lemma_quoted_step(c[10], t11);
    lemma_quoted_step(c[9], t10);
    lemma_quoted_step(c[8], t9);
    lemma_quoted_step(c[7], t8);
    lemma_quoted_step(c[6], t7);
    lemma_quoted_step(c[5], t6);
    lemma_quoted_step(c[4], t5);
    lemma_quoted_step(c[3], t4);
    lemma_quoted_step(c[2], t3);
    lemma_quoted_step(c[1], t2);
    lemma_quoted_step(c[0], t1);
    let rest9 = seq![c[9]] + (seq![c[10]] + (seq![c[11]] + seq![c[12]]));
    assert(rest9 =~= c.skip(9));
    let rest5 = seq![c[5]] + (seq![c[6]] + (seq![c[7]] + (seq![c[8]] + rest9)));
    assert(rest5 =~= c.skip(5));
    assert(seq![c[0]] + (seq![c[1]] + (seq![c[2]] + (seq![c[3]] + (seq![c[4]] + rest5)))) =~= c);
}

proof fn lemma_quoted_capture_script(id: Seq<char>)
    requires
        !id.contains('\''),
    ensures
        ({
            let code = capture_code();
            quoted(capture_script(id)) == seq![
                code[0],
                id,
                code[1],
                id,
                code[2],
                id,
                code[3],
                id,
                code[4],
                "stellar-private-payments:tx-progress"@,
                code[5],
                id,
                code[6],
            ]
        }),
{
    let event = "stellar-private-payments:tx-progress"@;
    reveal_strlit("stellar-private-payments:tx-progress");
    lemma_capture_code();
    let code = capture_code();
    let q = seq!['\''];
    let parts = seq![
        code[0],
        id,
        code[1],
        id,
        code[2],
        id,
        code[3],
        id,
        code[4],
        event,
        code[5],
        id,
        code[6],
    ];
    assert(!event.contains('\''));
    lemma_quoted_thirteen(parts);
    lemma_regroup_capture(
        code[0],
        code[1],
        code[2],
        code[3],
        code[4],
        code[5],
        code[6],
        id,
        event,
    );
}

proof fn lemma_regroup_capture(
    c0: Seq<char>,
    c1: Seq<char>,
    c2: Seq<char>,
    c3: Seq<char>,
    c4: Seq<char>,
    c5: Seq<char>,
    c6: Seq<char>,
    id: Seq<char>,
    event: Seq<char>,
)
    ensures
        ({
            let q = seq!['\''];
            (c0 + q) + id + (q + c1 + q) + id + (q + c2 + q) + id + (q + c3 + q) + id + (q + c4
                + q) + event + (q + c5 + q) + id + (q + c6) == c0 + q + (id + q + (c1 + q + (id + q
                + (c2 + q + (id + q + (c3 + q + (id + q + (c4 + q + (event + q + (c5 + q + (id + q
                + c6)))))))))))
        }),
{
    let q = seq!['\''];
    let p1 = (c0 + q);
    let p2 = p1 + id + (q + c1 + q);
    let p3 = p2 + id + (q + c2 + q);
    let p4 = p3 + id + (q + c3 + q);
    let p5 = p4 + id + (q + c4 + q);
    let p6 = p5 + event + (q + c5 + q);
    let t6 = id + q + c6;
    let t5 = event + q + (c5 + q + t6);
    let t4 = id + q + (c4 + q + t5);
    let t3 = id + q + (c3 + q + t4);
    let t2 = id + q + (c2 + q + t3);
    lemma_regroup_name(p6, id, c6);
    lemma_regroup_code(p5 + event, c5, t6);
    lemma_regroup_name(p5, event, c5 + q + t6);
    lemma_regroup_code(p4 + id, c4, t5);
    lemma_regroup_name(p4, id, c4 + q + t5);
    lemma_regroup_code(p3 + id, c3, t4);
    lemma_regroup_name(p3, id, c3 + q + t4);
    lemma_regroup_code(p2 + id, c2, t3);
    lemma_regroup_name(p2, id, c2 + q + t3);
    lemma_regroup_code(p1 + id, c1, t2);
    lemma_regroup_name(p1, id, c1 + q + t2);
}

proof fn lemma_regroup_name(before: Seq<char>, name: Seq<char>, rest: Seq<char>)
    ensures
        before + name + (seq!['\''] + rest) == before + (name + seq!['\''] + rest),
{
    assert(before + name + (seq!['\''] + rest) =~= before + (name + seq!['\''] + rest));
}

proof fn lemma_regroup_code(before: Seq<char>, code: Seq<char>, rest: Seq<char>)
    ensures
        before + (seq!['\''] + code + seq!['\'']) + rest == before + (seq!['\''] + (code
            + seq!['\''] + rest)),
{
    assert(before + (seq!['\''] + code + seq!['\'']) + rest =~= before + (seq!['\''] + (code
        + seq!['\''] + rest)));
}

/// The code of the collecting script, between its names, up to its end.
#[verifier::opaque]
spec fn collect_code() -> Seq<Seq<char>> {
    seq![
        r#"(function () {
             const listener = (globalThis.__e2eProgressListeners || {})["#@,
        r#"];
             if (listener) window.removeEventListener("#@,
        r#", listener);
             return ((globalThis.__e2eStages || {})["#@,
        r#"] || []).map(function (stage) {
               return String(stage).replace(/%/g, "#@,
        r#"%25"#@,
        r#").replace(/,/g, "#@,
        r#"%2C"#@,
        r#");
             }).join("#@,
        r#","#@,
        r#");
           })()"#@,
    ]
}

/// The end of the collecting script, behind the quote that closes its last name.
spec fn collect_end() -> Seq<char> {
    let q = seq!['\''];
    let c = collect_code();
    c[3] + q + (c[4] + q + (c[5] + q + (c[6] + q + (c[7] + q + (c[8] + q + c[9])))))
}

proof fn lemma_collect_code()
    ensures
        COLLECT_HEAD@ == collect_code()[0] + seq!['\''],
        COLLECT_EVENT@ == seq!['\''] + collect_code()[1] + seq!['\''],
        COLLECT_STAGES@ == seq!['\''] + collect_code()[2] + seq!['\''],
        COLLECT_TAIL@ == seq!['\''] + collect_end(),
        forall|i: int| 0 <= i < 10 ==> !(#[trigger] collect_code()[i]).contains('\''),
{
    reveal(collect_code);
    reveal_strlit(r#"(function () {
             const listener = (globalThis.__e2eProgressListeners || {})["#);
    reveal_strlit(r#"];
             if (listener) window.removeEventListener("#);
    reveal_strlit(r#", listener);
             return ((globalThis.__e2eStages || {})["#);
    reveal_strlit(r#"] || []).map(function (stage) {
               return String(stage).replace(/%/g, "#);
    reveal_strlit(r#"%25"#);
    reveal_strlit(r#").replace(/,/g, "#);
    reveal_strlit(r#"%2C"#);
    reveal_strlit(r#");
             }).join("#);
    reveal_strlit(r#","#);
    reveal_strlit(r#");
           })()"#);
    reveal_strlit(r#"(function () {
             const listener = (globalThis.__e2eProgressListeners || {})['"#);
    reveal_strlit(r#"'];
             if (listener) window.removeEventListener('"#);
    reveal_strlit(r#"', listener);
             return ((globalThis.__e2eStages || {})['"#);
    reveal_strlit(r#"'] || []).map(function (stage) {
               return String(stage).replace(/%/g, '%25').replace(/,/g, '%2C');
             }).join(',');
           })()"#);
    assert(COLLECT_HEAD@ =~= collect_code()[0] + seq!['\'']);
    assert(COLLECT_EVENT@ =~= seq!['\''] + collect_code()[1] + seq!['\'']);
    assert(COLLECT_STAGES@ =~= seq!['\''] + collect_code()[2] + seq!['\'']);
    assert(COLLECT_TAIL@ =~= seq!['\''] + collect_end());
    assert(!collect_code()[0].contains('\''));
    assert(!collect_code()[1].contains('\''));
    assert(!collect_code()[2].contains('\''));
    assert(!collect_code()[3].contains('\''));
    assert(!collect_code()[4].contains('\''));
    assert(!collect_code()[5].contains('\''));
    assert(!collect_code()[6].contains('\''));
    assert(!collect_code()[7].contains('\''));
    assert(!collect_code()[8].contains('\''));
    assert(!collect_code()[9].contains('\''));
}

proof fn lemma_quoted_collect_script(id: Seq<char>)
    requires
        !id.contains('\''),
    ensures
        ({
            let code = collect_code();
            quoted(collect_script(id)) == seq![
                code[0],
                id,
                code[1],
                "stellar-private-payments:tx-progress"@,
                code[2],
                id,
                code[3],
                code[4],
                code[5],
                code[6],
                code[7],
                code[8],
                code[9],
            ]
        }),
{
    let event = "stellar-private-payments:tx-progress"@;
    reveal_strlit("stellar-private-payments:tx-progress");
    lemma_collect_code();
    let code = collect_code();
    let q = seq!['\''];
    let parts = seq![
        code[0],
        id,
        code[1],
        event,
        code[2],
        id,
        code[3],
        code[4],
        code[5],
        code[6],
        code[7],
        code[8],
        code[9],
    ];
    assert(!event.contains('\''));
    assert forall|i: int| 0 <= i < 13 implies !(#[trigger] parts[i]).contains('\'') by {}
    lemma_quoted_thirteen(parts);
    let rest = code[3] + q + (code[4] + q + (code[5] + q + (code[6] + q + (code[7] + q + (code[8]
        + q + code[9])))));
    lemma_regroup_collect(code[0], code[1], code[2], rest, id, event);
}

proof fn lemma_regroup_collect(
    c0: Seq<char>,
    c1: Seq<char>,
    c2: Seq<char>,
    rest: Seq<char>,
    id: Seq<char>,
    event: Seq<char>,
)
    ensures
        ({
            let q = seq!['\''];
            (c0 + q) + id + (q + c1 + q) + event + (q + c2 + q) + id + (q + rest) == c0 + q + (id + q
                + (c1 + q + (event + q + (c2 + q + (id + q + rest)))))
        }),
{
    let q = seq!['\''];
    assert((c0 + q) + id + (q + c1 + q) + event + (q + c2 + q) + id + (q + rest) =~= c0 + q + (id + q
        + (c1 + q + (event + q + (c2 + q + (id + q + rest))))));
}

proof fn lemma_capture_ends()
    ensures
        !ends(capture_code()[0], "ev.detail.flow === "@),
        !ends(capture_code()[1], "ev.detail.flow === "@),
        ends(capture_code()[2], "ev.detail.flow === "@),
        !ends(capture_code()[3], "ev.detail.flow === "@),
        !ends(capture_code()[4], "ev.detail.flow === "@),
        !ends(capture_code()[5], "ev.detail.flow === "@),
        ends(capture_code()[0], "globalThis.__e2eStages["@),
        !ends(capture_code()[1], "globalThis.__e2eStages["@),
        !ends(capture_code()[2], "globalThis.__e2eStages["@),
        ends(capture_code()[3], "globalThis.__e2eStages["@),
        !ends(capture_code()[4], "globalThis.__e2eStages["@),
        !ends(capture_code()[5], "globalThis.__e2eStages["@),
        !ends(capture_code()[0], "globalThis.__e2eProgressListeners["@),
        ends(capture_code()[1], "globalThis.__e2eProgressListeners["@),
        !ends(capture_code()[2], "globalThis.__e2eProgressListeners["@),
        !ends(capture_code()[3], "globalThis.__e2eProgressListeners["@),
        !ends(capture_code()[4], "globalThis.__e2eProgressListeners["@),
        ends(capture_code()[5], "globalThis.__e2eProgressListeners["@),
        !ends(capture_code()[0], "window.addEventListener("@),
        !ends(capture_code()[1], "window.addEventListener("@),
        !ends(capture_code()[2], "window.addEventListener("@),
        !ends(capture_code()[3], "window.addEventListener("@),
        ends(capture_code()[4], "window.addEventListener("@),
        !ends(capture_code()[5], "window.addEventListener("@),
        !ends(capture_code()[0], "const listener = (globalThis.__e2eProgressListeners || {})["@),
        !ends(capture_code()[1], "const listener = (globalThis.__e2eProgressListeners || {})["@),
        !ends(capture_code()[2], "const listener = (globalThis.__e2eProgressListeners || {})["@),
        !ends(capture_code()[3], "const listener = (globalThis.__e2eProgressListeners || {})["@),
        !ends(capture_code()[4], "const listener = (globalThis.__e2eProgressListeners || {})["@),
        !ends(capture_code()[5], "const listener = (globalThis.__e2eProgressListeners || {})["@),
{
    reveal(capture_code);
    reveal_strlit("ev.detail.flow === ");
    reveal_strlit("globalThis.__e2eStages[");
    reveal_strlit("globalThis.__e2eProgressListeners[");
    reveal_strlit("window.addEventListener(");
    reveal_strlit("const listener = (globalThis.__e2eProgressListeners || {})[");
    reveal_strlit(r#"(function () {
             globalThis.__e2eStages = globalThis.__e2eStages || {};
             globalThis.__e2eProgressListeners = globalThis.__e2eProgressListeners || {};
             globalThis.__e2eStages["#);
    reveal_strlit(r#"] = [];
             globalThis.__e2eProgressListeners["#);
    reveal_strlit(r#"] = function (ev) {
               if (ev && ev.detail && ev.detail.flow === "#);
    reveal_strlit(r#" && ev.detail.stage) {
                 globalThis.__e2eStages["#);
    reveal_strlit(r#"].push(ev.detail.stage);
               }
             };
             window.addEventListener("#);
    reveal_strlit(r#", globalThis.__e2eProgressListeners["#);
    lemma_ends_not(capture_code()[0], "ev.detail.flow === "@, 1);
    lemma_ends_not(capture_code()[1], "ev.detail.flow === "@, 1);
    assert(capture_code()[2].skip(capture_code()[2].len() - "ev.detail.flow === "@.len()) =~= "ev.detail.flow === "@);
    lemma_ends_not(capture_code()[3], "ev.detail.flow === "@, 1);
    lemma_ends_not(capture_code()[4], "ev.detail.flow === "@, 1);
    lemma_ends_not(capture_code()[5], "ev.detail.flow === "@, 1);
    assert(capture_code()[0].skip(capture_code()[0].len() - "globalThis.__e2eStages["@.len()) =~= "globalThis.__e2eStages["@);
    lemma_ends_not(capture_code()[1], "globalThis.__e2eStages["@, 3);
    lemma_ends_not(capture_code()[2], "globalThis.__e2eStages["@, 1);
    assert(capture_code()[3].skip(capture_code()[3].len() - "globalThis.__e2eStages["@.len()) =~= "globalThis.__e2eStages["@);
    lemma_ends_not(capture_code()[4], "globalThis.__e2eStages["@, 1);
    lemma_ends_not(capture_code()[5], "globalThis.__e2eStages["@, 3);
    lemma_ends_not(capture_code()[0], "globalThis.__e2eProgressListeners["@, 3);
    assert(capture_code()[1].skip(capture_code()[1].len() - "globalThis.__e2eProgressListeners["@.len()) =~= "globalThis.__e2eProgressListeners["@);
    lemma_ends_not(capture_code()[2], "globalThis.__e2eProgressListeners["@, 1);
    lemma_ends_not(capture_code()[3], "globalThis.__e2eProgressListeners["@, 3);
    lemma_ends_not(capture_code()[4], "globalThis.__e2eProgressListeners["@, 1);
    assert(capture_code()[5].skip(capture_code()[5].len() - "globalThis.__e2eProgressListeners["@.len()) =~= "globalThis.__e2eProgressListeners["@);
    lemma_ends_not(capture_code()[0], "window.addEventListener("@, 1);
    lemma_ends_not(capture_code()[1], "window.addEventListener("@, 1);
    lemma_ends_not(capture_code()[2], "window.addEventListener("@, 1);
    lemma_ends_not(capture_code()[3], "window.addEventListener("@, 1);
    assert(capture_code()[4].skip(capture_code()[4].len() - "window.addEventListener("@.len()) =~= "window.addEventListener("@);
    lemma_ends_not(capture_code()[5], "window.addEventListener("@, 1);
    lemma_ends_not(capture_code()[0], "const listener = (globalThis.__e2eProgressListeners || {})["@, 2);
    lemma_ends_not(capture_code()[1], "const listener = (globalThis.__e2eProgressListeners || {})["@, 2);
    lemma_ends_not(capture_code()[2], "const listener = (globalThis.__e2eProgressListeners || {})["@, 1);
    lemma_ends_not(capture_code()[3], "const listener = (globalThis.__e2eProgressListeners || {})["@, 2);
    lemma_ends_not(capture_code()[4], "const listener = (globalThis.__e2eProgressListeners || {})["@, 1);
    lemma_ends_not(capture_code()[5], "const listener = (globalThis.__e2eProgressListeners || {})["@, 2);
}

proof fn lemma_collect_ends()
    ensures
        ends(collect_code()[0], "const listener = (globalThis.__e2eProgressListeners || {})["@),
        !ends(collect_code()[1], "const listener = (globalThis.__e2eProgressListeners || {})["@),
        !ends(collect_code()[2], "const listener = (globalThis.__e2eProgressListeners || {})["@),
        !ends(collect_code()[3], "const listener = (globalThis.__e2eProgressListeners || {})["@),
        !ends(collect_code()[5], "const listener = (globalThis.__e2eProgressListeners || {})["@),
        !ends(collect_code()[7], "const listener = (globalThis.__e2eProgressListeners || {})["@),
        !ends(collect_code()[0], "return ((globalThis.__e2eStages || {})["@),
        !ends(collect_code()[1], "return ((globalThis.__e2eStages || {})["@),
        ends(collect_code()[2], "return ((globalThis.__e2eStages || {})["@),
        !ends(collect_code()[3], "return ((globalThis.__e2eStages || {})["@),
        !ends(collect_code()[5], "return ((globalThis.__e2eStages || {})["@),
        !ends(collect_code()[7], "return ((globalThis.__e2eStages || {})["@),
        !ends(collect_code()[0], "window.removeEventListener("@),
        ends(collect_code()[1], "window.removeEventListener("@),
        !ends(collect_code()[2], "window.removeEventListener("@),
        !ends(collect_code()[3], "window.removeEventListener("@),
        !ends(collect_code()[5], "window.removeEventListener("@),
        !ends(collect_code()[7], "window.removeEventListener("@),
        !ends(collect_code()[0], "ev.detail.flow === "@),
        !ends(collect_code()[1], "ev.detail.flow === "@),
        !ends(collect_code()[2], "ev.detail.flow === "@),
        !ends(collect_code()[3], "ev.detail.flow === "@),
        !ends(collect_code()[5], "ev.detail.flow === "@),
        !ends(collect_code()[7], "ev.detail.flow === "@),
{
    reveal(collect_code);
    reveal_strlit("const listener = (globalThis.__e2eProgressListeners || {})[");
    reveal_strlit("return ((globalThis.__e2eStages || {})[");
    reveal_strlit("window.removeEventListener(");
    reveal_strlit("ev.detail.flow === ");
    reveal_strlit(r#"(function () {
             const listener = (globalThis.__e2eProgressListeners || {})["#);
    reveal_strlit(r#"];
             if (listener) window.removeEventListener("#);
    reveal_strlit(r#", listener);
             return ((globalThis.__e2eStages || {})["#);
    reveal_strlit(r#"] || []).map(function (stage) {
               return String(stage).replace(/%/g, "#);
    reveal_strlit(r#").replace(/,/g, "#);
    reveal_strlit(r#");
             }).join("#);
    assert(collect_code()[0].skip(collect_code()[0].len() - "const listener = (globalThis.__e2eProgressListeners || {})["@.len()) =~= "const listener = (globalThis.__e2eProgressListeners || {})["@);
    lemma_ends_not(collect_code()[1], "const listener = (globalThis.__e2eProgressListeners || {})["@, 1);
    lemma_ends_not(collect_code()[2], "const listener = (globalThis.__e2eProgressListeners || {})["@, 10);
    lemma_ends_not(collect_code()[3], "const listener = (globalThis.__e2eProgressListeners || {})["@, 1);
    lemma_ends_not(collect_code()[5], "const listener = (globalThis.__e2eProgressListeners || {})["@, 1);
    lemma_ends_not(collect_code()[7], "const listener = (globalThis.__e2eProgressListeners || {})["@, 1);
    lemma_ends_not(collect_code()[0], "return ((globalThis.__e2eStages || {})["@, 10);
    lemma_ends_not(collect_code()[1], "return ((globalThis.__e2eStages || {})["@, 1);
    assert(collect_code()[2].skip(collect_code()[2].len() - "return ((globalThis.__e2eStages || {})["@.len()) =~= "return ((globalThis.__e2eStages || {})["@);
    lemma_ends_not(collect_code()[3], "return ((globalThis.__e2eStages || {})["@, 1);
    lemma_ends_not(collect_code()[5], "return ((globalThis.__e2eStages || {})["@, 1);
    lemma_ends_not(collect_code()[7], "return ((globalThis.__e2eStages || {})["@, 1);
    lemma_ends_not(collect_code()[0], "window.removeEventListener("@, 1);
    assert(collect_code()[1].skip(collect_code()[1].len() - "window.removeEventListener("@.len()) =~= "window.removeEventListener("@);
    lemma_ends_not(collect_code()[2], "window.removeEventListener("@, 1);
    lemma_ends_not(collect_code()[3], "window.removeEventListener("@, 1);
    lemma_ends_not(collect_code()[5], "window.removeEventListener("@, 1);
    lemma_ends_not(collect_code()[7], "window.removeEventListener("@, 2);
    lemma_ends_not(collect_code()[0], "ev.detail.flow === "@, 1);
    lemma_ends_not(collect_code()[1], "ev.detail.flow === "@, 1);
    lemma_ends_not(collect_code()[2], "ev.detail.flow === "@, 1);
    lemma_ends_not(collect_code()[3], "ev.detail.flow === "@, 2);
    lemma_ends_not(collect_code()[5], "ev.detail.flow === "@, 2);
    lemma_ends_not(collect_code()[7], "ev.detail.flow === "@, 1);
}

/// The script that starts recording under an id starts recording under that id, and
/// under no other, the stages of the flow of that name, and stops no recording.
pub proof fn the_capture_script_starts_recording(id: Seq<char>, other: Seq<char>)
    requires
        !id.contains('\''),
    ensures
        starts_recording(capture_script(id), other) <==> other == id,
        !stops_recording(capture_script(id), other),
{
    let script = capture_script(id);
    let parts = quoted(script);
    lemma_quoted_capture_script(id);
    lemma_capture_ends();
    assert(ends(parts[4], "ev.detail.flow === "@) && parts[5] == id);
    assert(ends(parts[0], "globalThis.__e2eStages["@) && parts[1] == id);
    assert(ends(parts[2], "globalThis.__e2eProgressListeners["@) && parts[3] == id);
    assert(ends(parts[8], "window.addEventListener("@));
    assert(names(script, "ev.detail.flow === "@, id));
    assert(names(script, "globalThis.__e2eStages["@, id));
    assert(names(script, "globalThis.__e2eProgressListeners["@, id));
    assert(names(
        script,
        "window.addEventListener("@,
        "stellar-private-payments:tx-progress"@,
    ));
    assert(!names(script, "const listener = (globalThis.__e2eProgressListeners || {})["@, other));
}

/// The script that stops recording under an id stops it under that id, and under no
/// other, gives what is recorded under that id, and starts no recording.
pub proof fn the_collecting_script_stops_recording(id: Seq<char>, other: Seq<char>)
    requires
        !id.contains('\''),
    ensures
        stops_recording(collect_script(id), other) <==> other == id,
        !starts_recording(collect_script(id), other),
{
    let script = collect_script(id);
    let parts = quoted(script);
    lemma_quoted_collect_script(id);
    lemma_collect_ends();
    assert(ends(parts[0], "const listener = (globalThis.__e2eProgressListeners || {})["@)
        && parts[1] == id);
    assert(ends(parts[4], "return ((globalThis.__e2eStages || {})["@) && parts[5] == id);
    assert(ends(parts[2], "window.removeEventListener("@));
    assert(names(script, "const listener = (globalThis.__e2eProgressListeners || {})["@, id));
    assert(names(script, "return ((globalThis.__e2eStages || {})["@, id));
    assert(names(
        script,
        "window.removeEventListener("@,
        "stellar-private-payments:tx-progress"@,
    ));
    assert(!names(script, "ev.detail.flow === "@, other));
}

/// The scripts that are written do in the page what the model of the page says that
/// starting and reading do, under every id, for every id without a quote that they are
/// written for.
pub proof fn the_scripts_do_what_the_model_says(
    id: Seq<char>,
    capture: Capture,
    named: &str,
    start: String,
    stop: String,
)
    requires
        call_ensures(start_progress_capture, (named,), start),
        call_ensures(stop_progress_capture, (named,), stop),
        !named@.contains('\''),
    ensures
        evaluated(id, capture, start@) == capture_after(id, capture, PageStep::Start { id: named@ }),
        evaluated(id, capture, stop@) == capture_after(id, capture, PageStep::Read { id: named@ }),
{
    the_capture_script_starts_recording(named@, id);
    the_collecting_script_stops_recording(named@, id);
}

/// What is read of a page that holds these stages under an id are these stages, in
/// order; of a page that gives nothing, none.
pub proof fn the_stages_of_the_page_are_read(
    stages: Seq<Seq<char>>,
    collected: Option<String>,
    read: Vec<String>,
)
    requires
        call_ensures(captured_stages, (collected,), read),
        forall|i: int| 0 <= i < stages.len() ==> (#[trigger] stages[i]).len() > 0,
        collected matches Some(text) && text@ == joined(escaped_all(stages)),
    ensures
        read@.len() == stages.len(),
        forall|i: int| 0 <= i < stages.len() ==> (#[trigger] read@[i])@ == stages[i],
{
    recorded_stages_are_read_back(stages);
    assert forall|i: int| 0 <= i < stages.len() implies (#[trigger] read@[i])@ == stages[i] by {
        assert(views(read@)[i] == stages[i]);
    }
}

proof fn lemma_plain_text_stays(text: Seq<char>)
    requires
        !text.contains('%'),
    ensures
        unescaped(text) == text,
    decreases text.len(),
{
    if text.len() > 0 {
        let rest = text.skip(1);
        assert(text.contains(text[0]));
        assert forall|i: int| 0 <= i < rest.len() implies rest[i] != '%' by {
            assert(text.contains(text[i + 1]));
        }
        lemma_plain_text_stays(rest);
        assert(seq![text[0]] + rest =~= text);
    } else {
        assert(text =~= Seq::empty());
    }
}

/// A collected text without a percent sign is split at its commas: the stages are one
/// more than the commas, none holds a comma, and joined by commas they are the text. An
/// empty text, or none, holds no stage.
pub proof fn collected_stages_are_split_at_commas(collected: Option<String>, read: Vec<String>)
    requires
        call_ensures(captured_stages, (collected,), read),
    ensures
        collected is None ==> read@.len() == 0,
        collected matches Some(text) ==> (text@.len() == 0 <==> read@.len() == 0),
        collected matches Some(text) ==> (text@.len() > 0 ==> read@.len() == commas(text@) + 1),
        collected matches Some(text) ==> (text@.len() > 0 && !text@.contains('%') ==> joined(
            Seq::new(read@.len(), |i: int| read@[i]@),
        ) == text@ && forall|i: int|
            0 <= i < read@.len() ==> !(#[trigger] read@[i])@.contains(',')),
{
    assert(views(read@).len() == read@.len());
    if let Some(text) = collected {
        if text@.len() > 0 {
            fields_join_back(text@);
            crate::text_laws::field_count_is_that_of_commas(text@);
            let list = fields(text@);
            if !text@.contains('%') {
                assert forall|i: int| 0 <= i < list.len() implies unescaped(#[trigger] list[i])
                    == list[i] by {
                    lemma_field_is_within(text@, i);
                    lemma_plain_text_stays(list[i]);
                }
                assert(views(read@) =~= list);
                assert(Seq::new(read@.len(), |i: int| read@[i]@) =~= list);
                assert forall|i: int| 0 <= i < read@.len() implies !(
                #[trigger] read@[i])@.contains(',') by {
                    assert(views(read@)[i] == list[i]);
                }
            }
        }
    }
}

proof fn lemma_field_is_within(text: Seq<char>, i: int)
    requires
        !text.contains('%'),
        0 <= i < fields(text).len(),
    ensures
        !fields(text)[i].contains('%'),
    decreases text.len(),
{
    if text.len() > 0 {
        let front = text.drop_last();
        assert forall|k: int| 0 <= k < front.len() implies front[k] != '%' by {
            assert(text.contains(text[k]));
        }
        assert(text.contains(text.last()));
        fields_join_back(front);
        let before = fields(front);
        if i < before.len() {
            lemma_field_is_within(front, i);
            let field = fields(text)[i];
            assert forall|k: int| 0 <= k < field.len() implies field[k] != '%' by {
                if k < before[i].len() {
                    assert(before[i].contains(before[i][k]));
                }
            }
        }
    }
}

/// What the collecting script writes for a percent sign and for a comma is put back, in
/// front of whatever follows, and every other character stays.
pub proof fn codes_are_put_back(rest: Seq<char>, c: char)
    ensures
        unescaped("%25"@ + rest) == seq!['%'] + unescaped(rest),
        unescaped("%2C"@ + rest) == seq![','] + unescaped(rest),
        c != '%' ==> unescaped(seq![c] + rest) == seq![c] + unescaped(rest),
        escaped(seq![c] + rest) == (if c == '%' {
            "%25"@
        } else if c == ',' {
            "%2C"@
        } else {
            seq![c]
        }) + escaped(rest),
        unescaped(Seq::empty()) == Seq::<char>::empty(),
        escaped(Seq::empty()) == Seq::<char>::empty(),
{
    reveal_strlit("%25");
    reveal_strlit("%2C");
    assert(("%25"@ + rest).skip(3) =~= rest);
    assert(("%2C"@ + rest).skip(3) =~= rest);
    assert((seq![c] + rest).skip(1) =~= rest);
    assert("%25"@ =~= seq!['%', '2', '5']);
    assert("%2C"@ =~= seq!['%', '2', 'C']);
}

} // verus!
