//! Five-field cron expressions: `*`, `*/step` and comma-separated values.
use vstd::prelude::*;
use crate::error::{ApiError, ApiErrorView};
use crate::model::UtcTime;
use crate::number::{decimal, is_digit, lemma_decimal_digits, lemma_parse_decimal, parse_u32, parse_u32_spec};
use crate::text::{
    char_rows, chars_of, has_prefix, same_chars, split_chars, split_on, split_words, starts_with,
    string_of, words,
};

verus! {

/// The view of a result whose error is an [`ApiError`].
pub open spec fn result_view<T>(r: Result<T, ApiError>) -> Result<T, ApiErrorView> {
    match r {
        Ok(v) => Ok(v),
        Err(e) => Err(e@),
    }
}

/// Whether `value` is among the comma-separated `candidates`, read in order; the
/// first candidate that is not a number before a match is an error.
pub open spec fn candidates_match(candidates: Seq<Seq<char>>, value: u32) -> Result<bool, ApiErrorView>
    decreases candidates.len(),
{
    if candidates.len() == 0 {
        Ok(false)
    } else {
        match parse_u32_spec(candidates[0]) {
            None => Err(ApiErrorView::InvalidCronValue { candidate: candidates[0] }),
            Some(v) => if v == value {
                Ok(true)
            } else {
                candidates_match(candidates.drop_first(), value)
            },
        }
    }
}

/// Whether the cron field `field` admits `value`: `*` admits every value,
/// `*/step` the multiples of a non-zero step, and a comma-separated list the
/// values it names.
pub open spec fn field_matches(field: Seq<char>, value: u32) -> Result<bool, ApiErrorView> {
    if field == "*"@ {
        Ok(true)
    } else if starts_with(field, "*/"@) {
        match parse_u32_spec(field.skip("*/"@.len() as int)) {
            None => Err(ApiErrorView::InvalidCronStep),
            Some(step) => Ok(step != 0 && value % step == 0),
        }
    } else {
        candidates_match(split_on(field, ','), value)
    }
}

/// The check `first` followed, only when it holds, by the check `rest`.
pub open spec fn then_check(
    first: Result<bool, ApiErrorView>,
    rest: Result<bool, ApiErrorView>,
) -> Result<bool, ApiErrorView> {
    match first {
        Ok(true) => rest,
        _ => first,
    }
}

/// Whether the cron expression `expression` fires at `now`: its five fields
/// are checked in order against the minute, hour, day of month, month and day
/// of week (Sunday is 0), stopping at the first field that does not match.
pub open spec fn cron_fires(expression: Seq<char>, now: UtcTime) -> Result<bool, ApiErrorView> {
    let f = words(expression);
    if f.len() != 5 {
        Err(ApiErrorView::CronFieldCount { expression })
    } else {
        then_check(
            field_matches(f[0], now.minute),
            then_check(
                field_matches(f[1], now.hour),
                then_check(
                    field_matches(f[2], now.day),
                    then_check(field_matches(f[3], now.month), field_matches(f[4], now.weekday)),
                ),
            ),
        )
    }
}

/// Whether the cron field `field` admits `value`.
pub fn matches_field(field: &str, value: u32) -> (r: Result<bool, ApiError>)
    ensures
        result_view(r) == field_matches(field@, value),
{
    let fc = chars_of(field);
    if same_chars(&fc, &chars_of("*")) {
        return Ok(true);
    }
    let lead = chars_of("*/");
    if has_prefix(&fc, &lead) {
        let mut rest: Vec<char> = Vec::new();
        let mut i: usize = lead.len();
        while i < fc.len()
            invariant
                lead@ == "*/"@,
                lead.len() <= i <= fc.len(),
                rest@ == fc@.subrange(lead@.len() as int, i as int),
            decreases fc.len() - i,
        {
            rest.push(fc[i]);
            i = i + 1;
            assert(rest@ =~= fc@.subrange(lead@.len() as int, i as int));
        }
        assert(rest@ =~= field@.skip("*/"@.len() as int));
        return match parse_u32(&rest) {
            None => Err(ApiError::InvalidCronStep),
            Some(step) => Ok(step != 0 && value % step == 0),
        };
    }
    let cands = split_chars(&fc, ',');
    let ghost rows = char_rows(cands@);
    let mut i: usize = 0;
    assert(rows.skip(0) =~= rows);
    while i < cands.len()
        invariant
            rows == char_rows(cands@),
            rows == split_on(field@, ','),
            i <= cands@.len(),
            field_matches(field@, value) == candidates_match(rows.skip(i as int), value),
        decreases cands.len() - i,
    {
        let ghost tail = rows.skip(i as int);
        assert(tail[0] == cands@[i as int]@);
        assert(tail.drop_first() =~= rows.skip(i + 1));
        match parse_u32(&cands[i]) {
            None => return Err(ApiError::InvalidCronValue { candidate: string_of(&cands[i]) }),
            Some(v) => {
                if v == value {
                    return Ok(true);
                }
            },
        }
        i = i + 1;
    }
    assert(rows.skip(i as int) =~= Seq::<Seq<char>>::empty());
    Ok(false)
}

/// Whether the cron expression `expression` fires at `now`.
pub fn cron_matches(expression: &str, now: &UtcTime) -> (r: Result<bool, ApiError>)
    ensures
        result_view(r) == cron_fires(expression@, *now),
{
    let f = split_words(&chars_of(expression));
    if f.len() != 5 {
        return Err(ApiError::CronFieldCount { expression: expression.to_owned() });
    }
    let ghost rows = char_rows(f@);
    assert(rows[0] == f@[0]@ && rows[1] == f@[1]@ && rows[2] == f@[2]@ && rows[3] == f@[3]@
        && rows[4] == f@[4]@);
    if !matches_field(string_of(&f[0]).as_str(), now.minute)? {
        return Ok(false);
    }
    if !matches_field(string_of(&f[1]).as_str(), now.hour)? {
        return Ok(false);
    }
    if !matches_field(string_of(&f[2]).as_str(), now.day)? {
        return Ok(false);
    }
    if !matches_field(string_of(&f[3]).as_str(), now.month)? {
        return Ok(false);
    }
    matches_field(string_of(&f[4]).as_str(), now.weekday)
}

/// The calendar values the five fields of a cron expression are checked
/// against, in field order: minute, hour, day of month, month, day of week.
pub open spec fn calendar_values(now: UtcTime) -> Seq<u32> {
    seq![now.minute, now.hour, now.day, now.month, now.weekday]
}

/// A five-field cron expression fires at `now` exactly when each of its
/// fields admits its calendar value. It does not fire exactly when some field
/// rejects its value and every field before it admits its own, and it is an
/// error exactly when some field cannot be read and every field before it
/// admits its value.
pub proof fn lemma_cron_fields(expression: Seq<char>, now: UtcTime)
    requires
        words(expression).len() == 5,
    ensures
        ({
            let f = words(expression);
            let v = calendar_values(now);
            &&& cron_fires(expression, now) == Ok::<bool, ApiErrorView>(true) <==> forall|i: int|
                0 <= i < 5 ==> field_matches(#[trigger] f[i], v[i]) == Ok::<bool, ApiErrorView>(true)
            &&& cron_fires(expression, now) == Ok::<bool, ApiErrorView>(false) <==> exists|i: int|
                0 <= i < 5 && field_matches(#[trigger] f[i], v[i]) == Ok::<bool, ApiErrorView>(false)
                    && forall|j: int|
                    0 <= j < i ==> field_matches(#[trigger] f[j], v[j]) == Ok::<bool, ApiErrorView>(true)
            &&& forall|e: ApiErrorView|
                cron_fires(expression, now) == Err::<bool, ApiErrorView>(e) <==> exists|i: int|
                    0 <= i < 5 && field_matches(#[trigger] f[i], v[i]) == Err::<bool, ApiErrorView>(e)
                        && forall|j: int|
                        0 <= j < i ==> field_matches(#[trigger] f[j], v[j]) == Ok::<bool, ApiErrorView>(true)
        }),
{
    let f = words(expression);
    let v = calendar_values(now);
    let r0 = field_matches(f[0], v[0]);
    let r1 = field_matches(f[1], v[1]);
    let r2 = field_matches(f[2], v[2]);
    let r3 = field_matches(f[3], v[3]);
    let r4 = field_matches(f[4], v[4]);
    assert(v[0] == now.minute && v[1] == now.hour && v[2] == now.day && v[3] == now.month && v[4]
        == now.weekday);
    let first_off = if r0 != Ok::<bool, ApiErrorView>(true) {
        0int
    } else if r1 != Ok::<bool, ApiErrorView>(true) {
        1int
    } else if r2 != Ok::<bool, ApiErrorView>(true) {
        2int
    } else if r3 != Ok::<bool, ApiErrorView>(true) {
        3int
    } else if r4 != Ok::<bool, ApiErrorView>(true) {
        4int
    } else {
        5int
    };
    assert forall|j: int| 0 <= j < first_off implies field_matches(#[trigger] f[j], v[j])
        == Ok::<bool, ApiErrorView>(true) by {}
    if first_off < 5 {
        assert(field_matches(f[first_off], v[first_off]) != Ok::<bool, ApiErrorView>(true));
        assert(cron_fires(expression, now) == field_matches(f[first_off], v[first_off]));
        assert forall|i: int|
            0 <= i < 5 && #[trigger] field_matches(f[i], v[i]) != Ok::<bool, ApiErrorView>(true) && (
            forall|j: int| 0 <= j < i ==> field_matches(#[trigger] f[j], v[j]) == Ok::<bool, ApiErrorView>(true))
            implies i == first_off by {
            if i < first_off {
            } else if i > first_off {
                assert(field_matches(f[first_off], v[first_off]) == Ok::<bool, ApiErrorView>(true));
            }
        }
    } else {
        assert(cron_fires(expression, now) == Ok::<bool, ApiErrorView>(true));
    }
}

proof fn lemma_split_without_separator(s: Seq<char>, sep: char)
    requires
        forall|i: int| 0 <= i < s.len() ==> s[i] != sep,
    ensures
        split_on(s, sep) == seq![s],
    decreases s.len(),
{
    if s.len() > 0 {
        lemma_split_without_separator(s.drop_last(), sep);
        assert(s.drop_last().push(s.last()) =~= s);
    } else {
        assert(s =~= Seq::<char>::empty());
    }
}

/// The field `*` admits every value.
pub proof fn lemma_star_field(value: u32)
    ensures
        field_matches("*"@, value) == Ok::<bool, ApiErrorView>(true),
{
}

/// A field that names the number `n` admits exactly the value `n`.
pub proof fn lemma_number_field(n: u32, value: u32)
    ensures
        field_matches(decimal(n as nat), value) == Ok::<bool, ApiErrorView>(value == n),
{
    let d = decimal(n as nat);
    lemma_decimal_digits(n as nat);
    lemma_parse_decimal(n);
    reveal_strlit("*");
    reveal_strlit("*/");
    assert(is_digit(d[0]));
    assert(d != "*"@);
    if d.len() >= 2 {
        assert(d.subrange(0, 2)[0] == d[0]);
        assert("*/"@[0] == '*');
    }
    assert(!starts_with(d, "*/"@));
    assert forall|i: int| 0 <= i < d.len() implies d[i] != ',' by {
        assert(is_digit(d[i]));
    }
    lemma_split_without_separator(d, ',');
    let c = split_on(d, ',');
    assert(c[0] == d);
    assert(c.drop_first() =~= Seq::<Seq<char>>::empty());
    assert(candidates_match(c.drop_first(), value) == Ok::<bool, ApiErrorView>(false));
    assert(field_matches(d, value) == candidates_match(c, value));
}

/// A field `*/n` admits exactly the multiples of `n`, and nothing when `n` is 0.
pub proof fn lemma_step_field(n: u32, value: u32)
    ensures
        field_matches("*/"@ + decimal(n as nat), value) == Ok::<bool, ApiErrorView>(
            n != 0 && value % n == 0,
        ),
{
    let d = decimal(n as nat);
    let f = "*/"@ + d;
    lemma_decimal_digits(n as nat);
    lemma_parse_decimal(n);
    reveal_strlit("*");
    reveal_strlit("*/");
    assert(f.len() >= 3);
    assert(f != "*"@);
    assert(f.subrange(0, 2) =~= "*/"@);
    assert(starts_with(f, "*/"@));
    assert(f.skip(2) =~= d);
}

/// A list of candidates that are all numbers admits exactly the values among them.
pub proof fn lemma_candidates_admit_listed(candidates: Seq<Seq<char>>, value: u32)
    requires
        forall|i: int| 0 <= i < candidates.len() ==> (#[trigger] parse_u32_spec(candidates[i])) is Some,
    ensures
        candidates_match(candidates, value) == Ok::<bool, ApiErrorView>(
            exists|i: int| 0 <= i < candidates.len() && #[trigger] parse_u32_spec(candidates[i]) == Some(value),
        ),
    decreases candidates.len(),
{
    if candidates.len() > 0 {
        let rest = candidates.drop_first();
        assert forall|i: int| 0 <= i < rest.len() implies (#[trigger] parse_u32_spec(rest[i])) is Some by {
            assert(rest[i] == candidates[i + 1]);
            assert(parse_u32_spec(candidates[i + 1]) is Some);
        }
        lemma_candidates_admit_listed(rest, value);
        if parse_u32_spec(candidates[0]) != Some(value) {
            if exists|i: int| 0 <= i < candidates.len() && #[trigger] parse_u32_spec(candidates[i]) == Some(value) {
                let i = choose|i: int| 0 <= i < candidates.len() && #[trigger] parse_u32_spec(candidates[i]) == Some(value);
                assert(rest[i - 1] == candidates[i]);
            }
            if exists|i: int| 0 <= i < rest.len() && #[trigger] parse_u32_spec(rest[i]) == Some(value) {
                let i = choose|i: int| 0 <= i < rest.len() && #[trigger] parse_u32_spec(rest[i]) == Some(value);
                assert(rest[i] == candidates[i + 1]);
            }
        }
    }
}

/// A field that is neither `*` nor a step, and whose comma-separated pieces
/// are all numbers, admits exactly the values it names.
pub proof fn lemma_list_field(field: Seq<char>, value: u32)
    requires
        field != "*"@,
        !starts_with(field, "*/"@),
        forall|i: int|
            0 <= i < split_on(field, ',').len() ==> (#[trigger] parse_u32_spec(split_on(field, ',')[i])) is Some,
    ensures
        field_matches(field, value) == Ok::<bool, ApiErrorView>(
            exists|i: int|
                0 <= i < split_on(field, ',').len() && #[trigger] parse_u32_spec(split_on(field, ',')[i])
                    == Some(value),
        ),
{
    lemma_candidates_admit_listed(split_on(field, ','), value);
}

} // verus!
