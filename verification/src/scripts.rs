//! The scripts that the harness evaluates in the browser page.

use crate::report::{unmet, unmet_text, NOTHING_THERE, NO_ERROR};
use crate::text::{fields, fields_of_joined, joined, split_at_commas, views};
use vstd::prelude::*;
use vstd::string::*;

verus! {

/// DOM event carrying transaction progress.
pub const TX_PROGRESS_EVENT: &'static str = "stellar-private-payments:tx-progress";

/// Start of the worker script, up to the origin.
pub const WORKER_HEAD: &'static str = r#"(async function () {
             const base = '"#;

/// From the origin to the file name.
pub const WORKER_FILE: &'static str = r#"/workers';
             const url = base + '/"#;

/// From the file name to the origin of the circuits.
///
/// The loader is fetched with XMLHttpRequest, not fetch, because other tests on
/// the page replace `window.fetch` with a shim and never restore it.
pub const WORKER_FETCH: &'static str = r#"';
             let src = await new Promise(function (resolve, reject) {
               const xhr = new XMLHttpRequest();
               xhr.open('GET', url, true);
               xhr.onload = function () {
                 if (xhr.status >= 200 && xhr.status < 300) resolve(xhr.responseText);
                 else reject(new Error('GET ' + url + ': ' + xhr.status));
               };
               xhr.onerror = function () { reject(new Error('network error for ' + url)); };
               xhr.send();
             });
             src = src.replace(/from '\.\/([^']+)'/g, "from '" + base + "/$1'");
             src = src.replace(
               /new URL\('\.\.\/circuits\/', import\.meta\.url\)\.href/g,
               "'"#;

/// From the origin of the circuits to the end.
pub const WORKER_TAIL: &'static str = r#"/circuits/'"
             );
             const blob = new Blob([src], { type: 'application/javascript' });
             return URL.createObjectURL(blob);
           })()"#;

/// The script that fetches the worker loader `file` from the static server at
/// `origin`, makes its references absolute and gives a same-origin `blob:` URL
/// for it.
pub open spec fn worker_script(origin: Seq<char>, file: Seq<char>) -> Seq<char> {
    WORKER_HEAD@ + origin + WORKER_FILE@ + file + WORKER_FETCH@ + origin + WORKER_TAIL@
}

/// Writes the script that gives a `blob:` URL for a worker loader.
pub fn blob_worker_script(origin: &str, file: &str) -> (r: String)
    ensures
        r@ == worker_script(origin@, file@),
{
    let mut js = WORKER_HEAD.to_owned();
    js.append(origin);
    js.append(WORKER_FILE);
    js.append(file);
    js.append(WORKER_FETCH);
    js.append(origin);
    js.append(WORKER_TAIL);
    js
}

/// What came of a worker script, with its texts as sequences of characters.
pub open spec fn fetched_view(
    outcome: Result<Option<String>, String>,
) -> Result<Option<Seq<char>>, Seq<char>> {
    match outcome {
        Ok(Some(url)) => Ok(Some(url@)),
        Ok(None) => Ok(None),
        Err(error) => Err(error@),
    }
}

/// The URL of a worker, or what is said where there is none.
pub open spec fn worker_url(
    outcome: Result<Option<Seq<char>>, Seq<char>>,
) -> Result<Seq<char>, Seq<char>> {
    match outcome {
        Ok(Some(url)) => Ok(url),
        Ok(None) => Err(NOTHING_THERE@),
        Err(error) => Err(unmet(NO_ERROR@, error)),
    }
}

/// Takes the URL of a worker out of what came of its script: the text that it gave,
/// if it gave one, or the error that it failed with, as it is printed. The error is
/// what is said where there is no URL.
pub fn blob_worker_url(outcome: Result<Option<String>, String>) -> (r: Result<String, String>)
    ensures
        match r {
            Ok(url) => worker_url(fetched_view(outcome)) matches Ok(text) && text == url@,
            Err(said) => worker_url(fetched_view(outcome)) matches Err(text) && text == said@,
        },
{
    match outcome {
        Ok(Some(url)) => Ok(url),
        Ok(None) => Err(NOTHING_THERE.to_owned()),
        Err(error) => Err(unmet_text(NO_ERROR, error.as_str())),
    }
}

/// Start of the capture script, up to the first capture id.
pub const CAPTURE_HEAD: &'static str = r#"(function () {
             globalThis.__e2eStages = globalThis.__e2eStages || {};
             globalThis.__e2eProgressListeners = globalThis.__e2eProgressListeners || {};
             globalThis.__e2eStages['"#;

/// From the emptied list of stages to the listener's capture id.
pub const CAPTURE_LISTENER: &'static str = r#"'] = [];
             globalThis.__e2eProgressListeners['"#;

/// From the listener's capture id to the flow that it listens to.
pub const CAPTURE_FLOW: &'static str = r#"'] = function (ev) {
               if (ev && ev.detail && ev.detail.flow === '"#;

/// From the flow to the list that takes the stage.
pub const CAPTURE_STAGE: &'static str = r#"' && ev.detail.stage) {
                 globalThis.__e2eStages['"#;

/// From the list that takes the stage to the event's name.
pub const CAPTURE_EVENT: &'static str = r#"'].push(ev.detail.stage);
               }
             };
             window.addEventListener('"#;

/// From the event's name to the listener that is installed.
pub const CAPTURE_INSTALL: &'static str = r#"', globalThis.__e2eProgressListeners['"#;

/// End of the capture script.
pub const CAPTURE_TAIL: &'static str = r#"']);
           })()"#;

/// The script that starts recording, under `capture_id`, the stages of progress
/// events whose flow is `capture_id`.
pub open spec fn capture_script(capture_id: Seq<char>) -> Seq<char> {
    CAPTURE_HEAD@ + capture_id + CAPTURE_LISTENER@ + capture_id + CAPTURE_FLOW@ + capture_id
        + CAPTURE_STAGE@ + capture_id + CAPTURE_EVENT@ + TX_PROGRESS_EVENT@ + CAPTURE_INSTALL@
        + capture_id + CAPTURE_TAIL@
}

/// Writes the script that starts recording progress stages.
pub fn start_progress_capture(capture_id: &str) -> (r: String)
    ensures
        r@ == capture_script(capture_id@),
{
    let mut js = CAPTURE_HEAD.to_owned();
    js.append(capture_id);
    js.append(CAPTURE_LISTENER);
    js.append(capture_id);
    js.append(CAPTURE_FLOW);
    js.append(capture_id);
    js.append(CAPTURE_STAGE);
    js.append(capture_id);
    js.append(CAPTURE_EVENT);
    js.append(TX_PROGRESS_EVENT);
    js.append(CAPTURE_INSTALL);
    js.append(capture_id);
    js.append(CAPTURE_TAIL);
    js
}

/// Start of the collecting script, up to the listener's capture id.
pub const COLLECT_HEAD: &'static str = r#"(function () {
             const listener = (globalThis.__e2eProgressListeners || {})['"#;

/// From the listener to the event's name.
pub const COLLECT_EVENT: &'static str = r#"'];
             if (listener) window.removeEventListener('"#;

/// From the event's name to the list of stages.
pub const COLLECT_STAGES: &'static str = r#"', listener);
             return ((globalThis.__e2eStages || {})['"#;

/// End of the collecting script.
pub const COLLECT_TAIL: &'static str = r#"'] || []).map(function (stage) {
               return String(stage).replace(/%/g, '%25').replace(/,/g, '%2C');
             }).join(',');
           })()"#;

/// The script that stops recording under `capture_id` and gives the stages seen,
/// in order, each [`escaped`], joined by commas.
pub open spec fn collect_script(capture_id: Seq<char>) -> Seq<char> {
    COLLECT_HEAD@ + capture_id + COLLECT_EVENT@ + TX_PROGRESS_EVENT@ + COLLECT_STAGES@ + capture_id
        + COLLECT_TAIL@
}

/// Writes the script that stops recording and collects the stages.
pub fn stop_progress_capture(capture_id: &str) -> (r: String)
    ensures
        r@ == collect_script(capture_id@),
{
    let mut js = COLLECT_HEAD.to_owned();
    js.append(capture_id);
    js.append(COLLECT_EVENT);
    js.append(TX_PROGRESS_EVENT);
    js.append(COLLECT_STAGES);
    js.append(capture_id);
    js.append(COLLECT_TAIL);
    js
}

/// A character as the collecting script writes it: a percent sign and a comma are
/// replaced.
pub open spec fn escaped_char(c: char) -> Seq<char> {
    if c == '%' {
        seq!['%', '2', '5']
    } else if c == ',' {
        seq!['%', '2', 'C']
    } else {
        seq![c]
    }
}

/// A stage as the collecting script writes it.
pub open spec fn escaped(stage: Seq<char>) -> Seq<char>
    decreases stage.len(),
{
    if stage.len() == 0 {
        Seq::empty()
    } else {
        escaped_char(stage[0]) + escaped(stage.skip(1))
    }
}

/// Stages as the collecting script writes them, before it joins them.
pub open spec fn escaped_all(stages: Seq<Seq<char>>) -> Seq<Seq<char>> {
    Seq::new(stages.len(), |i: int| escaped(stages[i]))
}

/// A text with what [`escaped`] replaces put back.
pub open spec fn unescaped(text: Seq<char>) -> Seq<char>
    decreases text.len(),
{
    if text.len() == 0 {
        Seq::empty()
    } else if text.len() >= 3 && text[0] == '%' && text[1] == '2' && text[2] == '5' {
        seq!['%'] + unescaped(text.skip(3))
    } else if text.len() >= 3 && text[0] == '%' && text[1] == '2' && text[2] == 'C' {
        seq![','] + unescaped(text.skip(3))
    } else {
        seq![text[0]] + unescaped(text.skip(1))
    }
}

/// The stages in what the collecting script gave: none in an empty text.
pub open spec fn stages_in(collected: Seq<char>) -> Seq<Seq<char>> {
    if collected.len() == 0 {
        Seq::empty()
    } else {
        Seq::new(fields(collected).len(), |i: int| unescaped(fields(collected)[i]))
    }
}

/// Puts back what the collecting script replaced.
fn unescape(text: &str) -> (r: String)
    ensures
        r@ == unescaped(text@),
{
    proof {
        reveal_strlit("%");
        reveal_strlit(",");
        assert(text@.skip(0) =~= text@);
        assert(Seq::<char>::empty() + unescaped(text@) =~= unescaped(text@));
    }
    let len: usize = text.unicode_len();
    let mut out = String::new();
    let mut i: usize = 0;
    while i < len
        invariant
            i <= len,
            len == text@.len(),
            "%"@ =~= seq!['%'],
            ","@ =~= seq![','],
            out@ + unescaped(text@.skip(i as int)) == unescaped(text@),
        decreases len - i,
    {
        let ghost rest = text@.skip(i as int);
        let ghost before = out@;
        let coded: bool = len - i >= 3 && text.get_char(i) == '%' && text.get_char(i + 1) == '2';
        if coded && text.get_char(i + 2) == '5' {
            out.append("%");
            i = i + 3;
            proof {
                assert(rest.skip(3) =~= text@.skip(i as int));
                assert(out@ + unescaped(rest.skip(3)) =~= before + unescaped(rest));
            }
        } else if coded && text.get_char(i + 2) == 'C' {
            out.append(",");
            i = i + 3;
            proof {
                assert(rest.skip(3) =~= text@.skip(i as int));
                assert(out@ + unescaped(rest.skip(3)) =~= before + unescaped(rest));
            }
        } else {
            out.append(text.substring_char(i, i + 1));
            i = i + 1;
            proof {
                assert(rest.skip(1) =~= text@.skip(i as int));
                assert(out@ =~= before + seq![rest[0]]);
                assert(out@ + unescaped(rest.skip(1)) =~= before + unescaped(rest));
            }
        }
    }
    proof {
        assert(text@.skip(len as int) =~= Seq::empty());
        assert(out@ =~= unescaped(text@));
    }
    out
}

/// Reads the stages in what the collecting script gave, in order. A value that is
/// not a string holds none.
pub fn captured_stages(collected: Option<String>) -> (r: Vec<String>)
    ensures
        views(r@) == match collected {
            Some(text) => stages_in(text@),
            None => Seq::empty(),
        },
{
    let mut stages: Vec<String> = Vec::new();
    if let Some(text) = &collected {
        if !text.as_str().is_empty() {
            let parts = split_at_commas(text.as_str());
            let ghost all = views(parts@);
            let mut i: usize = 0;
            while i < parts.len()
                invariant
                    i <= parts@.len(),
                    stages@.len() == i,
                    all == views(parts@),
                    forall|k: int| 0 <= k < i ==> #[trigger] views(stages@)[k] == unescaped(all[k]),
                decreases parts@.len() - i,
            {
                let stage = unescape(parts[i].as_str());
                let ghost before = views(stages@);
                stages.push(stage);
                proof {
                    assert(views(stages@) =~= before.push(unescaped(all[i as int])));
                }
                i = i + 1;
            }
            proof {
                assert(views(stages@) =~= stages_in(text@));
            }
            return stages;
        }
    }
    proof {
        assert(views(stages@) =~= Seq::empty());
    }
    stages
}

/// What the collecting script replaces in a stage is put back when it is read, and
/// no comma is left in what it writes.
pub proof fn escaping_is_undone(stage: Seq<char>)
    ensures
        unescaped(escaped(stage)) == stage,
        !escaped(stage).contains(','),
        stage.len() > 0 ==> escaped(stage).len() > 0,
    decreases stage.len(),
{
    if stage.len() > 0 {
        let code = escaped_char(stage[0]);
        let rest = escaped(stage.skip(1));
        let whole = escaped(stage);
        escaping_is_undone(stage.skip(1));
        assert(whole.skip(code.len() as int) =~= rest);
        assert forall|i: int| 0 <= i < whole.len() implies whole[i] != ',' by {
            if i >= code.len() {
                assert(rest.contains(rest[i - code.len()]));
            }
        }
        assert(forall|i: int| 0 <= i < code.len() ==> whole[i] == code[i]);
        assert(unescaped(whole) =~= seq![stage[0]] + unescaped(rest));
        assert(seq![stage[0]] + stage.skip(1) =~= stage);
    }
}

/// The stages that were recorded are the stages that are read, in order, for every
/// list of stages that are not empty, commas and percent signs in them
/// notwithstanding. The listener records no empty stage.
pub proof fn recorded_stages_are_read_back(stages: Seq<Seq<char>>)
    requires
        forall|i: int| 0 <= i < stages.len() ==> (#[trigger] stages[i]).len() > 0,
    ensures
        stages_in(joined(escaped_all(stages))) == stages,
{
    let written = escaped_all(stages);
    if stages.len() == 0 {
        assert(stages =~= Seq::empty());
    } else {
        assert forall|i: int| 0 <= i < written.len() implies !(#[trigger] written[i]).contains(
            ',',
        ) && written[i].len() > 0 by {
            escaping_is_undone(stages[i]);
        }
        fields_of_joined(written);
        assert(written.last() == written[written.len() - 1]);
        assert(joined(written).len() > 0);
        assert forall|i: int| 0 <= i < stages.len() implies unescaped(#[trigger] written[i])
            == stages[i] by {
            escaping_is_undone(stages[i]);
        }
        assert(stages_in(joined(written)) =~= stages);
    }
}

/// The script that lets the page's other work go on for a moment.
pub const WAIT_SCRIPT: &'static str =
    "new Promise(function (resolve) { setTimeout(resolve, 10); })";

} // verus!
