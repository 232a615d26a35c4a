//! The speller service: where it is, how a request to it is made, and the
//! form that carries the text to check.

use vstd::prelude::*;
use vstd::string::*;

verus! {

/// The page whose text carries the passport key.
pub const BASE_URL: &'static str = "https://search.naver.com/search.naver?ie=UTF-8&sm=whl_hty&query=%EB%A7%9E%EC%B6%A4%EB%B2%95%EA%B2%80%EC%82%AC%EA%B8%B0";
/// The speller's address.
pub const URL: &'static str = "https://m.search.naver.com/p/csearch/ocontent/util/SpellerProxy";
pub const USER_AGENT: &'static str = "user-agent";
pub const USER_AGENT_VAL: &'static str = "Mozilla/5.0 (Windows NT 10.0; Win64; x64) AppleWebKit/537.36 (KHTML, like Gecko) Chrome/57.0.2987.133 Safari/537.36";
pub const REFERER: &'static str = "referer";
pub const REFERER_VAL: &'static str = "https://search.naver.com/";
pub const PASSPORT_KEY: &'static str = "passportKey";
pub const COLOR_BLINDNESS: &'static str = "color_blindness";
pub const COLOR_BLINDNESS_VAL: &'static str = "0";
pub const Q: &'static str = "q";
/// The name that notifications carry.
pub const APP_NAME: &'static str = "자동 맞춤법 검사기";

/// The form fields of a speller request, in order: the passport key, the
/// colour-blindness setting and the text to check.
pub fn speller_form(passport_key: &str, text: &str) -> (form: Vec<(String, String)>)
    ensures
        form@.len() == 3,
        form@[0].0@ == PASSPORT_KEY@ && form@[0].1@ == passport_key@,
        form@[1].0@ == COLOR_BLINDNESS@ && form@[1].1@ == COLOR_BLINDNESS_VAL@,
        form@[2].0@ == Q@ && form@[2].1@ == text@,
{
    let mut form: Vec<(String, String)> = Vec::new();
    form.push((PASSPORT_KEY.to_owned(), passport_key.to_owned()));
    form.push((COLOR_BLINDNESS.to_owned(), COLOR_BLINDNESS_VAL.to_owned()));
    form.push((Q.to_owned(), text.to_owned()));
    form
}

} // verus!
