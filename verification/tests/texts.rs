use private_payments_harness::encoding::{decode_base64, DecodeError};
use private_payments_harness::scripts::{
    blob_worker_script, captured_stages, start_progress_capture, stop_progress_capture,
    TX_PROGRESS_EVENT,
};
use private_payments_harness::signer::STUB_SIGNATURE_B64;
use private_payments_harness::text::{decimal_text, signed_decimal_text, split_at_commas};

fn strings(list: &[&str]) -> Vec<String> {
    list.iter().map(|s| s.to_string()).collect()
}

#[test]
fn decimals_are_plain() {
    for n in [0u128, 9, 10, 500_000, 1_000_000, u128::MAX] {
        assert_eq!(decimal_text(n), n.to_string());
    }
    for n in [0i32, -1, 7, i32::MAX, i32::MIN] {
        assert_eq!(signed_decimal_text(n), n.to_string());
    }
}

#[test]
fn splitting_is_that_of_std() {
    for text in ["", ",", "a", "a,b", ",a,,b,", "prove,simulate,sign", "\u{e9},\u{2026}x"] {
        let expected: Vec<String> = text.split(',').map(str::to_string).collect();
        assert_eq!(split_at_commas(text), expected);
        assert_eq!(split_at_commas(text).join(","), text);
    }
}

#[test]
fn joined_stages_are_read_back() {
    let stages = strings(&["sync", "prove", "simulate", "sign"]);
    assert_eq!(captured_stages(Some(stages.join(","))), stages);
}

/// What the collecting script gives for these stages.
fn collected(stages: &[&str]) -> Option<String> {
    let escaped: Vec<String> =
        stages.iter().map(|s| s.replace('%', "%25").replace(',', "%2C")).collect();
    Some(escaped.join(","))
}

#[test]
fn stages_with_commas_are_read_back() {
    for stages in [
        vec!["prove,sign"],
        vec![",", "%", "%2C", "%25,", "a,b%c"],
        vec!["prove", "simulate,sign"],
        vec!["\u{2026},\u{e9}%"],
        vec![],
    ] {
        assert_eq!(captured_stages(collected(&stages)), strings(&stages));
    }
}

#[test]
fn a_lone_percent_sign_stays() {
    for text in ["%", "%2", "%2c", "%20", "100%", "%%25"] {
        let expected = text.replace("%2C", ",").replace("%25", "%");
        assert_eq!(captured_stages(Some(text.to_string())), vec![expected]);
    }
}

#[test]
fn nothing_collected_is_no_stage() {
    assert!(captured_stages(Some(String::new())).is_empty());
    assert!(captured_stages(None).is_empty());
}

#[test]
fn worker_script_is_complete() {
    let origin = "http://127.0.0.1:8099";
    let file = "storage-worker.js";
    let expected = format!(
        r#"(async function () {{
             const base = '{origin}/workers';
             const url = base + '/{file}';
             let src = await new Promise(function (resolve, reject) {{
               const xhr = new XMLHttpRequest();
               xhr.open('GET', url, true);
               xhr.onload = function () {{
                 if (xhr.status >= 200 && xhr.status < 300) resolve(xhr.responseText);
                 else reject(new Error('GET ' + url + ': ' + xhr.status));
               }};
               xhr.onerror = function () {{ reject(new Error('network error for ' + url)); }};
               xhr.send();
             }});
             src = src.replace(/from '\.\/([^']+)'/g, "from '" + base + "/$1'");
             src = src.replace(
               /new URL\('\.\.\/circuits\/', import\.meta\.url\)\.href/g,
               "'{origin}/circuits/'"
             );
             const blob = new Blob([src], {{ type: 'application/javascript' }});
             return URL.createObjectURL(blob);
           }})()"#
    );
    assert_eq!(blob_worker_script(origin, file), expected);
}

#[test]
fn capture_script_is_complete() {
    let capture_id = "deposit";
    let expected = format!(
        r#"(function () {{
             globalThis.__e2eStages = globalThis.__e2eStages || {{}};
             globalThis.__e2eProgressListeners = globalThis.__e2eProgressListeners || {{}};
             globalThis.__e2eStages['{capture_id}'] = [];
             globalThis.__e2eProgressListeners['{capture_id}'] = function (ev) {{
               if (ev && ev.detail && ev.detail.flow === '{capture_id}' && ev.detail.stage) {{
                 globalThis.__e2eStages['{capture_id}'].push(ev.detail.stage);
               }}
             }};
             window.addEventListener('{TX_PROGRESS_EVENT}', globalThis.__e2eProgressListeners['{capture_id}']);
           }})()"#
    );
    assert_eq!(TX_PROGRESS_EVENT, "stellar-private-payments:tx-progress");
    assert_eq!(start_progress_capture(capture_id), expected);
}

#[test]
fn collecting_script_is_complete() {
    let capture_id = "withdraw";
    let expected = format!(
        r#"(function () {{
             const listener = (globalThis.__e2eProgressListeners || {{}})['{capture_id}'];
             if (listener) window.removeEventListener('{TX_PROGRESS_EVENT}', listener);
             return ((globalThis.__e2eStages || {{}})['{capture_id}'] || []).map(function (stage) {{
               return String(stage).replace(/%/g, '%25').replace(/,/g, '%2C');
             }}).join(',');
           }})()"#
    );
    assert_eq!(stop_progress_capture(capture_id), expected);
}

#[test]
fn base64_is_standard() {
    assert_eq!(decode_base64("aGVsbG8gd29ybGR+Cg==").unwrap(), b"hello world~\n");
    assert_eq!(decode_base64("").unwrap(), Vec::<u8>::new());
}

#[test]
fn only_canonical_base64_is_read() {
    for (text, reason) in [
        ("a$==", DecodeError::InvalidByte(1, b'$')),
        (" /w==", DecodeError::InvalidByte(0, b' ')),
        ("=", DecodeError::InvalidByte(0, b'=')),
        ("a", DecodeError::InvalidLength(1)),
        ("/x==", DecodeError::InvalidLastSymbol(1, b'x')),
        ("/w", DecodeError::InvalidPadding),
    ] {
        assert_eq!(decode_base64(text), Err(reason), "{text}");
    }
}

#[test]
fn padded_groups_need_zero_bits() {
    const SYMBOLS: &[u8] = b"ABCDEFGHIJKLMNOPQRSTUVWXYZabcdefghijklmnopqrstuvwxyz0123456789+/";
    for c in 0..128u8 {
        let value = SYMBOLS.iter().position(|s| *s == c);
        let one = format!("AA{}=", c as char);
        let two = format!("A{}==", c as char);
        let none = format!("AAA{}", c as char);
        let lengths = [one, two, none].map(|text| decode_base64(&text).ok().map(|b| b.len()));
        // "AA==" and "AAA=" are padded themselves.
        let middle = if c == b'=' { Some(1) } else { value.filter(|v| v % 4 == 0).map(|_| 2) };
        let last = if c == b'=' { Some(2) } else { value.map(|_| 3) };
        assert_eq!(
            lengths,
            [middle, value.filter(|v| v % 16 == 0).map(|_| 1), last],
            "{c}"
        );
    }
}

#[test]
fn stub_signature_is_64_bytes() {
    assert_eq!(decode_base64(STUB_SIGNATURE_B64).unwrap(), vec![0xa5u8; 64]);
}

#[test]
fn hex_of_a_signature_reads_as_96_bytes() {
    for digits in ["a5", "0F", "09"] {
        assert_eq!(decode_base64(&digits.repeat(64)).unwrap().len(), 96);
    }
}
