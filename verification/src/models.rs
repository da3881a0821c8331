//! The preview record, the request, a registry row, and the reading of
//! width/height values that may arrive as percent-suffixed text.

use vstd::prelude::*;
use vstd::string::*;
use crate::text::chars_of;

verus! {

/// The normalised preview record.
#[derive(Debug, PartialEq, Eq)]
pub struct OEmbedResponse {
    pub response_type: String,
    pub version: String,
    pub title: Option<String>,
    pub author_name: Option<String>,
    pub author_url: Option<String>,
    pub provider_name: Option<String>,
    pub provider_url: Option<String>,
    pub thumbnail_url: Option<String>,
    pub thumbnail_width: Option<u32>,
    pub thumbnail_height: Option<u32>,
    pub html: Option<String>,
    pub width: Option<u32>,
    pub height: Option<u32>,
}

/// A preview record with its texts as character sequences.
pub struct ResponseView {
    pub response_type: Seq<char>,
    pub version: Seq<char>,
    pub title: Option<Seq<char>>,
    pub author_name: Option<Seq<char>>,
    pub author_url: Option<Seq<char>>,
    pub provider_name: Option<Seq<char>>,
    pub provider_url: Option<Seq<char>>,
    pub thumbnail_url: Option<Seq<char>>,
    pub thumbnail_width: Option<u32>,
    pub thumbnail_height: Option<u32>,
    pub html: Option<Seq<char>>,
    pub width: Option<u32>,
    pub height: Option<u32>,
}

impl View for OEmbedResponse {
    type V = ResponseView;

    open spec fn view(&self) -> ResponseView {
        ResponseView {
            response_type: self.response_type@,
            version: self.version@,
            title: self.title.deep_view(),
            author_name: self.author_name.deep_view(),
            author_url: self.author_url.deep_view(),
            provider_name: self.provider_name.deep_view(),
            provider_url: self.provider_url.deep_view(),
            thumbnail_url: self.thumbnail_url.deep_view(),
            thumbnail_width: self.thumbnail_width,
            thumbnail_height: self.thumbnail_height,
            html: self.html.deep_view(),
            width: self.width,
            height: self.height,
        }
    }
}

impl ResponseView {
    /// Title and thumbnail are both present: the record is good enough to end the pipeline.
    pub open spec fn has_essentials(self) -> bool {
        self.title is Some && self.thumbnail_url is Some
    }
}

impl OEmbedResponse {
    /// Whether title and thumbnail are both present.
    pub fn has_essentials(&self) -> (both: bool)
        ensures
            both == self@.has_essentials(),
    {
        self.title.is_some() && self.thumbnail_url.is_some()
    }
}

/// One resolution request: the raw URL as the caller sent it.
#[derive(Debug, PartialEq, Eq)]
pub struct OEmbedRequest {
    pub url: String,
}

/// A registry row: where a provider answers, and the URL fragments that identify it.
#[derive(Debug, PartialEq, Eq)]
pub struct ProviderConfig {
    pub oembed_endpoint: Option<String>,
    pub url_patterns: Vec<String>,
}

/// A registry row with its texts as character sequences.
pub struct ConfigView {
    pub oembed_endpoint: Option<Seq<char>>,
    pub url_patterns: Seq<Seq<char>>,
}

impl View for ProviderConfig {
    type V = ConfigView;

    open spec fn view(&self) -> ConfigView {
        ConfigView {
            oembed_endpoint: self.oembed_endpoint.deep_view(),
            url_patterns: self.url_patterns.deep_view(),
        }
    }
}

/// A width or height as a provider sends it: a number, or text such as `"100%"`.
#[derive(Debug, PartialEq, Eq)]
pub enum Dimension {
    Text(String),
    Number(u32),
}

/// Why a width or height text is not a number.
#[derive(Clone, Copy, Debug, PartialEq, Eq, Structural)]
pub enum DimensionError {
    /// Nothing is left once the percent signs are gone.
    Empty,
    /// A character that is not a decimal digit, or a sign with no digit behind it.
    InvalidDigit,
    /// The digits spell a number above `u32::MAX`.
    TooLarge,
}

impl DimensionError {
    /// The text for this failure.
    pub open spec fn message_text(self) -> Seq<char> {
        match self {
            DimensionError::Empty => "cannot parse integer from empty string"@,
            DimensionError::InvalidDigit => "invalid digit found in string"@,
            DimensionError::TooLarge => "number too large to fit in target type"@,
        }
    }

    /// The text for this failure.
    pub fn message(&self) -> (text: String)
        ensures
            text@ == self.message_text(),
    {
        match self {
            DimensionError::Empty => String::from_str("cannot parse integer from empty string"),
            DimensionError::InvalidDigit => String::from_str("invalid digit found in string"),
            DimensionError::TooLarge => String::from_str("number too large to fit in target type"),
        }
    }
}

/// Whether a character is one of the ten decimal digits.
pub open spec fn is_digit(c: char) -> bool {
    '0' <= c <= '9'
}

/// The text without its trailing percent signs.
pub open spec fn strip_percent(s: Seq<char>) -> Seq<char>
    decreases s.len(),
{
    if s.len() > 0 && s.last() == '%' {
        strip_percent(s.drop_last())
    } else {
        s
    }
}

/// How many decimal digits the text starts with.
pub open spec fn digit_run(s: Seq<char>) -> nat
    decreases s.len(),
{
    if s.len() > 0 && is_digit(s[0]) {
        1 + digit_run(s.drop_first())
    } else {
        0
    }
}

/// The number that a run of decimal digits spells.
pub open spec fn decimal_value(s: Seq<char>) -> nat
    decreases s.len(),
{
    if s.len() == 0 {
        0
    } else {
        decimal_value(s.drop_last()) * 10 + ((s.last() as u32 - '0' as u32) as nat)
    }
}

/// The text read as an unsigned decimal number, left to right: one leading `+` is
/// allowed, every other character must be a digit, and the first character at which
/// the reading fails decides the error.
pub open spec fn parse_decimal(s: Seq<char>) -> Result<u32, DimensionError> {
    if s.len() == 0 {
        Err(DimensionError::Empty)
    } else {
        let digits = if s[0] == '+' {
            s.drop_first()
        } else {
            s
        };
        let run = digits.take(digit_run(digits) as int);
        if digits.len() == 0 {
            Err(DimensionError::InvalidDigit)
        } else if decimal_value(run) > u32::MAX {
            Err(DimensionError::TooLarge)
        } else if run.len() < digits.len() {
            Err(DimensionError::InvalidDigit)
        } else {
            Ok(decimal_value(run) as u32)
        }
    }
}

/// A width or height text: trailing percent signs are dropped, the rest is a number.
pub open spec fn parse_dimension(s: Seq<char>) -> Result<u32, DimensionError> {
    parse_decimal(strip_percent(s))
}

/// What a width or height field holds once read.
pub open spec fn width_height(value: Option<Dimension>) -> Result<Option<u32>, DimensionError> {
    match value {
        None => Ok(None),
        Some(Dimension::Number(n)) => Ok(Some(n)),
        Some(Dimension::Text(text)) => match parse_dimension(text@) {
            Ok(n) => Ok(Some(n)),
            Err(e) => Err(e),
        },
    }
}

proof fn lemma_digit_run_bound(s: Seq<char>)
    ensures
        digit_run(s) <= s.len(),
        forall|j: int| 0 <= j < digit_run(s) ==> is_digit(#[trigger] s[j]),
        digit_run(s) < s.len() ==> !is_digit(s[digit_run(s) as int]),
    decreases s.len(),
{
    if s.len() > 0 && is_digit(s[0]) {
        let rest = s.drop_first();
        lemma_digit_run_bound(rest);
        assert forall|j: int| 0 <= j < digit_run(s) implies is_digit(#[trigger] s[j]) by {
            if j > 0 {
                assert(s[j] == rest[j - 1]);
            }
        }
        if digit_run(s) < s.len() {
            assert(s[digit_run(s) as int] == rest[digit_run(rest) as int]);
        }
    }
}

/// The digit run ends exactly where the first non-digit stands.
proof fn lemma_digit_run_is(s: Seq<char>, n: int)
    requires
        0 <= n <= s.len(),
        forall|j: int| 0 <= j < n ==> is_digit(#[trigger] s[j]),
        n < s.len() ==> !is_digit(s[n]),
    ensures
        digit_run(s) == n,
{
    lemma_digit_run_bound(s);
    let r = digit_run(s) as int;
    if r < n {
        assert(is_digit(s[r]));
    } else if r > n {
        assert(is_digit(s[n]));
    }
}

/// A longer run of digits spells a number that is no smaller.
proof fn lemma_decimal_value_monotone(s: Seq<char>, a: int, b: int)
    requires
        0 <= a <= b <= s.len(),
    ensures
        decimal_value(s.take(a)) <= decimal_value(s.take(b)),
    decreases b - a,
{
    if a < b {
        lemma_decimal_value_monotone(s, a, b - 1);
        assert(s.take(b).drop_last() =~= s.take(b - 1));
        assert(decimal_value(s.take(b - 1)) <= decimal_value(s.take(b))) by (nonlinear_arith)
            requires
                decimal_value(s.take(b)) == decimal_value(s.take(b - 1)) * 10 + ((s.take(
                    b,
                ).last() as u32 - '0' as u32) as nat),
        ;
    }
}

/// Reads the digits of `chars` from index `from` on.
fn read_digits(chars: &Vec<char>, from: usize) -> (out: Result<u32, DimensionError>)
    requires
        from < chars.len(),
    ensures
        out == ({
            let digits = chars@.skip(from as int);
            let run = digits.take(digit_run(digits) as int);
            if decimal_value(run) > u32::MAX {
                Err(DimensionError::TooLarge)
            } else if run.len() < digits.len() {
                Err(DimensionError::InvalidDigit)
            } else {
                Ok::<u32, DimensionError>(decimal_value(run) as u32)
            }
        }),
{
    let ghost digits = chars@.skip(from as int);
    let mut value: u32 = 0;
    let mut i: usize = from;
    proof {
        assert(digits.take(0) =~= Seq::<char>::empty());
    }
    while i < chars.len()
        invariant
            from <= i <= chars.len(),
            digits == chars@.skip(from as int),
            forall|j: int| 0 <= j < i - from ==> is_digit(#[trigger] digits[j]),
            value == decimal_value(digits.take(i - from)),
        decreases chars.len() - i,
    {
        let c = chars[i];
        assert(digits[i - from] == c);
        if c < '0' || c > '9' {
            proof {
                lemma_digit_run_is(digits, i - from);
            }
            return Err(DimensionError::InvalidDigit);
        }
        let d: u32 = c as u32 - '0' as u32;
        proof {
            assert(digits.take(i - from + 1).drop_last() =~= digits.take(i - from));
            assert(digits.take(i - from + 1).last() == c);
        }
        let next = match value.checked_mul(10) {
            Some(tens) => tens.checked_add(d),
            None => None,
        };
        match next {
            Some(n) => {
                value = n;
            },
            None => {
                proof {
                    lemma_digit_run_bound(digits);
                    let r = digit_run(digits) as int;
                    if r < i - from + 1 {
                        assert(is_digit(digits[r]));
                    }
                    lemma_decimal_value_monotone(digits.take(r), i - from + 1, r);
                    assert(digits.take(r).take(i - from + 1) =~= digits.take(i - from + 1));
                    assert(digits.take(r).take(r) =~= digits.take(r));
                }
                return Err(DimensionError::TooLarge);
            },
        }
        i += 1;
    }
    proof {
        lemma_digit_run_is(digits, digits.len() as int);
        assert(digits.take(digits.len() as int) =~= digits);
    }
    Ok(value)
}

/// Reads a width or height text such as `"320"` or `"50%"`.
pub fn parse_width_height(text: &str) -> (out: Result<u32, DimensionError>)
    ensures
        out == parse_dimension(text@),
{
    let chars = chars_of(text);
    let mut end: usize = chars.len();
    proof {
        assert(chars@.take(end as int) =~= chars@);
    }
    while end > 0 && chars[end - 1] == '%'
        invariant
            end <= chars.len(),
            strip_percent(chars@) == strip_percent(chars@.take(end as int)),
        decreases end,
    {
        proof {
            assert(chars@.take(end as int).drop_last() =~= chars@.take(end - 1));
        }
        end -= 1;
    }
    let ghost body = chars@.take(end as int);
    assert(strip_percent(body) == body);
    if end == 0 {
        return Err(DimensionError::Empty);
    }
    let mut kept: Vec<char> = Vec::new();
    let mut i: usize = 0;
    while i < end
        invariant
            i <= end <= chars.len(),
            kept@ == chars@.take(i as int),
        decreases end - i,
    {
        kept.push(chars[i]);
        proof {
            assert(chars@.take(i + 1) =~= chars@.take(i as int).push(chars@[i as int]));
        }
        i += 1;
    }
    if kept[0] == '+' {
        if kept.len() == 1 {
            proof {
                assert(body.drop_first().len() == 0);
            }
            return Err(DimensionError::InvalidDigit);
        }
        proof {
            assert(kept@.skip(1) =~= body.drop_first());
        }
        read_digits(&kept, 1)
    } else {
        proof {
            assert(kept@.skip(0) =~= body);
        }
        read_digits(&kept, 0)
    }
}

/// Reads a width or height field: absent stays absent, a number is kept, and a text
/// must be a number once its percent signs are dropped.
pub fn deserialize_width_height(value: Option<Dimension>) -> (out: Result<
    Option<u32>,
    DimensionError,
>)
    ensures
        out == width_height(value),
{
    match value {
        None => Ok(None),
        Some(Dimension::Number(n)) => Ok(Some(n)),
        Some(Dimension::Text(text)) => match parse_width_height(text.as_str()) {
            Ok(n) => Ok(Some(n)),
            Err(e) => Err(e),
        },
    }
}

} // verus!
