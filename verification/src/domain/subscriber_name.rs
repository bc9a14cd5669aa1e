use vstd::prelude::*;
use crate::exception::biz_exception::{BizError, BizResult};
use crate::text::{decimal, decimal_string, is_blank, is_blank_str, is_unicode_whitespace};

verus! {

/// The most characters a subscriber name may have.
pub const MAX_NAME_LEN: usize = 64;

/// Characters a subscriber name must not contain.
pub const FORBIDDEN_CHARACTERS: [char; 10] = ['/', '(', ')', ',', '"', '<', '>', '\\', '{', '}'];

/// `c` is one of `FORBIDDEN_CHARACTERS`.
pub open spec fn is_forbidden_char(c: char) -> bool {
    FORBIDDEN_CHARACTERS@.contains(c)
}

/// Some character of `s` is forbidden.
pub open spec fn has_forbidden_char(s: Seq<char>) -> bool {
    exists|i: int| 0 <= i < s.len() && #[trigger] is_forbidden_char(s[i])
}

/// The detail given when a name is empty or blank.
pub open spec fn blank_name_detail() -> Seq<char> {
    "姓名为空"@
}

/// The detail given when a name is longer than `MAX_NAME_LEN` characters.
pub open spec fn long_name_detail() -> Seq<char> {
    "姓名超过"@ + decimal(MAX_NAME_LEN as nat) + "个字符"@
}

/// The detail given when a name holds a forbidden character.
pub open spec fn forbidden_name_detail() -> Seq<char> {
    "包含非法字符"@
}

/// Why `s` is refused as a subscriber name, checked in this order: blank,
/// too long, holding a forbidden character; `None` when it is accepted.
pub open spec fn name_rejection(s: Seq<char>) -> Option<Seq<char>> {
    if is_blank(s) {
        Some(blank_name_detail())
    } else if s.len() > MAX_NAME_LEN {
        Some(long_name_detail())
    } else if has_forbidden_char(s) {
        Some(forbidden_name_detail())
    } else {
        None
    }
}

/// `s` is acceptable as a subscriber name.
pub open spec fn is_valid_user_name(s: Seq<char>) -> bool {
    name_rejection(s) is None
}

/// The forbidden characters are exactly `/ ( ) , " < > \ { }`.
pub proof fn law_forbidden_characters()
    ensures
        FORBIDDEN_CHARACTERS@ == seq!['/', '(', ')', ',', '"', '<', '>', '\\', '{', '}'],
{
    assert(FORBIDDEN_CHARACTERS@ =~= seq!['/', '(', ')', ',', '"', '<', '>', '\\', '{', '}']);
}

/// A forbidden character anywhere in a name, whatever comes before or
/// after it, makes the name hold a forbidden character.
pub proof fn law_forbidden_character_anywhere(s: Seq<char>, i: int)
    requires
        0 <= i < s.len(),
        FORBIDDEN_CHARACTERS@.contains(s[i]),
    ensures
        has_forbidden_char(s),
{
    assert(is_forbidden_char(s[i]));
}

/// How every text is judged as a name.  A text of white space only is
/// refused as blank ("姓名为空"); otherwise one of more than 64 characters
/// is refused as too long ("姓名超过64个字符"); otherwise one holding a
/// forbidden character at any position is refused ("包含非法字符"); every
/// other text is accepted.
pub proof fn law_name_judgement(s: Seq<char>)
    ensures
        (forall|i: int| 0 <= i < s.len() ==> #[trigger] is_unicode_whitespace(s[i]))
            ==> name_rejection(s) == Some("姓名为空"@),
        (exists|i: int| 0 <= i < s.len() && !#[trigger] is_unicode_whitespace(s[i])) && s.len() > 64
            ==> name_rejection(s) == Some("姓名超过64个字符"@),
        (exists|i: int| 0 <= i < s.len() && !#[trigger] is_unicode_whitespace(s[i])) && s.len() <= 64
            && (exists|i: int| 0 <= i < s.len() && FORBIDDEN_CHARACTERS@.contains(#[trigger] s[i]))
            ==> name_rejection(s) == Some("包含非法字符"@),
        (exists|i: int| 0 <= i < s.len() && !#[trigger] is_unicode_whitespace(s[i])) && s.len() <= 64
            && (forall|i: int| 0 <= i < s.len() ==> !FORBIDDEN_CHARACTERS@.contains(#[trigger] s[i]))
            ==> name_rejection(s) is None,
{
    reveal_strlit("姓名超过");
    reveal_strlit("个字符");
    reveal_strlit("姓名超过64个字符");
    crate::text::law_decimal_denotes_its_number(64);
    assert(decimal(64) =~= seq!['6', '4']) by {
        assert(decimal(6) == seq!['6']);
        assert(decimal(64) == decimal(6).push('4'));
    }
    assert("姓名超过"@ + decimal(64) + "个字符"@ =~= "姓名超过64个字符"@);
    if exists|i: int| 0 <= i < s.len() && FORBIDDEN_CHARACTERS@.contains(#[trigger] s[i]) {
        let i = choose|i: int| 0 <= i < s.len() && FORBIDDEN_CHARACTERS@.contains(#[trigger] s[i]);
        law_forbidden_character_anywhere(s, i);
    }
}

/// A subscriber's name, checked by `SubscriberUserName::parse`.
#[derive(Debug)]
pub struct SubscriberUserName(String);

impl SubscriberUserName {
    #[verifier::type_invariant]
    spec fn inv(self) -> bool {
        is_valid_user_name(self.0@)
    }
}

impl View for SubscriberUserName {
    type V = Seq<char>;

    open spec fn view(&self) -> Seq<char> {
        self.text()
    }
}

impl SubscriberUserName {
    /// The characters of the name.
    pub closed spec fn text(&self) -> Seq<char> {
        self.0@
    }

    /// Checks a subscriber name.  A name is refused, in this order, when it
    /// is empty or white space only, when it has more than `MAX_NAME_LEN`
    /// characters, and when it holds one of `FORBIDDEN_CHARACTERS`; every
    /// refusal is a `ParamInvalid` whose payload says which.
    pub fn parse(s: String) -> (r: BizResult<SubscriberUserName>)
        ensures
            match r {
                Ok(name) => is_valid_user_name(s@) && name@ == s@,
                Err(e) => e matches BizError::ParamInvalid(detail)
                    && name_rejection(s@) == Some(detail@),
            },
    {
        if is_blank_str(s.as_str()) {
            return Err(BizError::ParamInvalid(String::from_str("姓名为空")));
        }
        let len = s.as_str().unicode_len();
        if len > MAX_NAME_LEN {
            let detail = String::from_str("姓名超过").concat(decimal_string(MAX_NAME_LEN as u64).as_str()).concat("个字符");
            return Err(BizError::ParamInvalid(detail));
        }
        if contains_forbidden_char(s.as_str()) {
            return Err(BizError::ParamInvalid(String::from_str("包含非法字符")));
        }
        Ok(SubscriberUserName(s))
    }

    /// The name as text.
    pub fn as_ref(&self) -> (r: &str)
        ensures
            r@ == self@,
            is_valid_user_name(r@),
    {
        proof { use_type_invariant(self); }
        self.0.as_str()
    }
}

/// Whether `c` is one of `FORBIDDEN_CHARACTERS`.
fn is_forbidden(c: char) -> (r: bool)
    ensures
        r == is_forbidden_char(c),
{
    let mut k: usize = 0;
    while k < FORBIDDEN_CHARACTERS.len()
        invariant
            k <= FORBIDDEN_CHARACTERS@.len(),
            forall|j: int| 0 <= j < k ==> FORBIDDEN_CHARACTERS@[j] != c,
        decreases FORBIDDEN_CHARACTERS@.len() - k,
    {
        if FORBIDDEN_CHARACTERS[k] == c {
            return true;
        }
        k = k + 1;
    }
    false
}

/// Whether some character of `s` is forbidden.
fn contains_forbidden_char(s: &str) -> (r: bool)
    ensures
        r == has_forbidden_char(s@),
{
    let len = s.unicode_len();
    let mut i: usize = 0;
    while i < len
        invariant
            len == s@.len(),
            i <= len,
            forall|j: int| 0 <= j < i ==> !#[trigger] is_forbidden_char(s@[j]),
        decreases len - i,
    {
        if is_forbidden(s.get_char(i)) {
            return true;
        }
        i = i + 1;
    }
    false
}

} // verus!
