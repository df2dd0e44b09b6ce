//! Language selection for a submission: reading a raw user token as either a
//! numeric judge language id or a free-text language name, and resolving the
//! selector against a name-to-id table into the canonical id.

use vstd::prelude::*;

verus! {

/// Language id the tool submits with when the user selects none, or when a
/// name cannot be resolved from the table.
pub const DEFAULT_LANGUAGE_ID: usize = 113;

/// A user-supplied language token, kept unresolved until submission time:
/// either a judge-defined numeric id or a display name to look up later.
#[derive(Debug, Clone, PartialEq, Eq)]
pub enum LanguageType {
    Id(usize),
    Name(String),
}

/// Mathematical image of a [`LanguageType`]: the name is a character sequence.
pub ghost enum LanguageTypeV {
    Id(usize),
    Name(Seq<char>),
}

impl DeepView for LanguageType {
    type V = LanguageTypeV;

    open spec fn deep_view(&self) -> LanguageTypeV {
        match self {
            LanguageType::Id(id) => LanguageTypeV::Id(*id),
            LanguageType::Name(s) => LanguageTypeV::Name(s@),
        }
    }
}

/// Error reserved for a language token that can be neither read nor kept as a
/// name. Reading a selector is total, so it is never actually produced; it
/// exists so that the selector parser has the shape of the fallible parsers.
#[derive(Debug, Clone, PartialEq, Eq, Structural)]
pub struct LanguageTypeError;

impl LanguageTypeError {
    /// Human-readable description of the failure.
    pub fn message(&self) -> (r: String)
        ensures
            r@ == "provided language id or name is not available"@,
    {
        String::from_str("provided language id or name is not available")
    }
}

/// Whether `c` is one of the ten ASCII decimal digits.
pub open spec fn is_decimal_digit(c: char) -> bool {
    '0' <= c && c <= '9'
}

/// Numeric value of a decimal digit.
pub open spec fn digit_value(c: char) -> nat {
    (c as int - '0' as int) as nat
}

/// Value of a digit string read in base ten; most significant digit first.
pub open spec fn decimal_value(s: Seq<char>) -> nat
    decreases s.len(),
{
    if s.len() == 0 {
        0
    } else {
        decimal_value(s.drop_last()) * 10 + digit_value(s.last())
    }
}

/// The digit portion of a numeric token: everything after one optional
/// leading `'+'` sign.
pub open spec fn spec_digits(s: Seq<char>) -> Seq<char> {
    if s.len() > 0 && s[0] == '+' {
        s.skip(1)
    } else {
        s
    }
}

/// Whether `s` is accepted as a non-negative integer: an optional leading
/// `'+'`, then at least one decimal digit and nothing else, with a value
/// that fits in `usize`.
pub open spec fn is_usize_string(s: Seq<char>) -> bool {
    let d = spec_digits(s);
    &&& d.len() > 0
    &&& forall|i: int| 0 <= i < d.len() ==> is_decimal_digit(#[trigger] d[i])
    &&& decimal_value(d) <= usize::MAX
}

/// The selector a raw token denotes. Reading a token is total: a token
/// accepted as a non-negative integer becomes the numeric id it spells,
/// every other token is kept verbatim as a language name.
pub open spec fn spec_parse_language(s: Seq<char>) -> LanguageTypeV {
    if is_usize_string(s) {
        LanguageTypeV::Id(decimal_value(spec_digits(s)) as usize)
    } else {
        LanguageTypeV::Name(s)
    }
}

/// The value of a prefix of a digit string never exceeds the value of the
/// whole: appending digits can only grow the value.
proof fn lemma_decimal_value_prefix_bounded(d: Seq<char>, m: int)
    requires
        0 <= m <= d.len(),
    ensures
        decimal_value(d.take(m)) <= decimal_value(d),
    decreases d.len() - m,
{
    if m == d.len() {
        assert(d.take(m) =~= d);
    } else {
        assert(d.take(m + 1).drop_last() =~= d.take(m));
        assert(decimal_value(d.take(m + 1)) == decimal_value(d.take(m)) * 10 + digit_value(
            d.take(m + 1).last(),
        ));
        lemma_decimal_value_prefix_bounded(d, m + 1);
    }
}

/// Read a raw token as a non-negative integer, rejecting any token that
/// `is_usize_string` does not accept, overflowing values included.
fn parse_usize(s: &str) -> (r: Option<usize>)
    ensures
        is_usize_string(s@) ==> r == Some(decimal_value(spec_digits(s@)) as usize),
        !is_usize_string(s@) ==> r is None,
{
    let n = s.unicode_len();
    let start: usize = if n > 0 && s.get_char(0) == '+' {
        1
    } else {
        0
    };
    let ghost d = spec_digits(s@);
    proof {
        assert(d =~= s@.skip(start as int));
    }
    if start == n {
        return None;
    }
    let mut acc: usize = 0;
    let mut i: usize = start;
    while i < n
        invariant
            n == s@.len(),
            start <= i <= n,
            d == spec_digits(s@),
            d =~= s@.skip(start as int),
            forall|j: int| 0 <= j < i - start ==> is_decimal_digit(#[trigger] d[j]),
            acc == decimal_value(d.take(i - start)),
        decreases n - i,
    {
        let c = s.get_char(i);
        proof {
            assert(d[i - start] == s@[i as int]);
        }
        if !('0' <= c && c <= '9') {
            return None;
        }
        let dv: usize = (c as u32 - '0' as u32) as usize;
        proof {
            assert(d.take(i - start + 1).drop_last() =~= d.take(i - start));
            assert(d.take(i - start + 1).last() == d[i - start]);
        }
        let next = match acc.checked_mul(10) {
            Some(m) => m.checked_add(dv),
            None => None,
        };
        match next {
            Some(m) => {
                acc = m;
            },
            None => {
                // The digits read so far already spell a value above
                // usize::MAX, and further digits only grow it.
                proof {
                    assert(decimal_value(d.take(i - start + 1)) > usize::MAX);
                    if forall|j: int| 0 <= j < d.len() ==> is_decimal_digit(#[trigger] d[j]) {
                        lemma_decimal_value_prefix_bounded(d, i - start + 1);
                    }
                }
                return None;
            },
        }
        i += 1;
    }
    proof {
        assert(d.take(n - start) =~= d);
    }
    Some(acc)
}

impl LanguageType {
    /// Read a raw language token. This never fails: a token spelling a
    /// non-negative integer that fits in `usize` becomes `Id` of that
    /// integer, and any other token becomes `Name` of the token itself.
    pub fn from_str(s: &str) -> (r: Result<LanguageType, LanguageTypeError>)
        ensures
            r matches Ok(lt) && lt.deep_view() == spec_parse_language(s@),
    {
        match parse_usize(s) {
            Some(id) => Ok(LanguageType::Id(id)),
            None => Ok(LanguageType::Name(String::from_str(s))),
        }
    }
}

/// A value stored in the language table under some name: only numeric
/// entries are meaningful to resolution, everything else is `Other`.
#[derive(Debug, Clone, Copy, PartialEq, Eq, Structural)]
pub enum TableValue {
    Num(i64),
    Other,
}

impl DeepView for TableValue {
    type V = TableValue;

    open spec fn deep_view(&self) -> TableValue {
        *self
    }
}

/// The externally supplied language table: display names paired with the
/// values stored under them, consulted by name with exact, case-sensitive
/// matching. The earliest entry for a name wins, so a table built from a
/// JSON object (whose keys are unique) behaves as that object.
#[derive(Debug, Clone, PartialEq, Eq)]
pub struct LanguageTable {
    entries: Vec<(String, TableValue)>,
}

impl View for LanguageTable {
    type V = Seq<(Seq<char>, TableValue)>;

    closed spec fn view(&self) -> Seq<(Seq<char>, TableValue)> {
        self.entries.deep_view()
    }
}

/// The value stored under `name`, if any: the first entry whose name
/// matches exactly.
pub open spec fn spec_lookup(entries: Seq<(Seq<char>, TableValue)>, name: Seq<char>) -> Option<
    TableValue,
>
    decreases entries.len(),
{
    if entries.len() == 0 {
        None
    } else if entries[0].0 == name {
        Some(entries[0].1)
    } else {
        spec_lookup(entries.skip(1), name)
    }
}

impl LanguageTable {
    /// An empty table: every lookup in it falls back to the default id.
    pub fn new() -> (t: LanguageTable)
        ensures
            t@ == Seq::<(Seq<char>, TableValue)>::empty(),
    {
        let t = LanguageTable { entries: Vec::new() };
        proof {
            assert(t@ =~= Seq::<(Seq<char>, TableValue)>::empty());
        }
        t
    }

    /// Append one name/value pair at the end of the table.
    pub fn insert(&mut self, name: String, value: TableValue)
        ensures
            final(self)@ == old(self)@.push((name@, value)),
    {
        let ghost before = self@;
        self.entries.push((name, value));
        proof {
            assert(self@ =~= before.push((name@, value)));
        }
    }

    /// Find the value stored under `name`, scanning entries in order.
    pub fn lookup(&self, name: &str) -> (r: Option<TableValue>)
        ensures
            r == spec_lookup(self@, name@),
    {
        let n = self.entries.len();
        let mut i: usize = 0;
        proof {
            assert(self@.skip(0) =~= self@);
        }
        while i < n
            invariant
                n == self.entries.len(),
                i <= n,
                self@.len() == n,
                spec_lookup(self@, name@) == spec_lookup(self@.skip(i as int), name@),
            decreases n - i,
        {
            proof {
                assert(self@[i as int] == self.entries@[i as int].deep_view());
                assert(self@.skip(i as int)[0] == self@[i as int]);
                assert(self@.skip(i as int).skip(1) =~= self@.skip(i + 1));
            }
            if crate::strutil::str_eq(self.entries[i].0.as_str(), name) {
                return Some(self.entries[i].1);
            }
            i += 1;
        }
        proof {
            assert(self@.skip(n as int) =~= Seq::<(Seq<char>, TableValue)>::empty());
        }
        None
    }
}

/// The canonical id a language name resolves to: the numeric value stored
/// under the name, truncated into `usize`, or the default id when the name
/// is absent or its stored value is not numeric. Resolution by name is
/// total: an unknown name degrades silently to the default.
pub open spec fn spec_resolve_name(entries: Seq<(Seq<char>, TableValue)>, name: Seq<char>) -> usize {
    match spec_lookup(entries, name) {
        Some(TableValue::Num(id)) => id as usize,
        _ => DEFAULT_LANGUAGE_ID,
    }
}

/// The canonical id a selector resolves to: a numeric id passes through
/// untouched (even when absent from the table), a name is looked up, and no
/// selector at all means the default id.
pub open spec fn spec_resolve_language(
    language: Option<LanguageTypeV>,
    entries: Seq<(Seq<char>, TableValue)>,
) -> usize {
    match language {
        None => DEFAULT_LANGUAGE_ID,
        Some(LanguageTypeV::Id(id)) => id,
        Some(LanguageTypeV::Name(name)) => spec_resolve_name(entries, name),
    }
}

/// Resolve a language name against the table. The stored numeric value is
/// truncated into `usize`; an absent name or a non-numeric value falls back
/// to the default id rather than failing.
pub fn get_language_id_from_str(s: &str, table: &LanguageTable) -> (r: usize)
    ensures
        r == spec_resolve_name(table@, s@),
{
    match table.lookup(s) {
        Some(TableValue::Num(id)) => #[verifier::truncate] (id as usize),
        _ => DEFAULT_LANGUAGE_ID,
    }
}

/// Resolve an optional language selector into the canonical judge id.
pub fn get_language_id(language: Option<LanguageType>, table: &LanguageTable) -> (r: usize)
    ensures
        r == spec_resolve_language(language.deep_view(), table@),
        language is None ==> r == DEFAULT_LANGUAGE_ID,
        language matches Some(LanguageType::Id(id)) ==> r == id,
        language matches Some(LanguageType::Name(name)) ==> r == spec_resolve_name(
            table@,
            name@,
        ),
{
    match language {
        Some(LanguageType::Id(id)) => id,
        Some(LanguageType::Name(name)) => get_language_id_from_str(name.as_str(), table),
        None => DEFAULT_LANGUAGE_ID,
    }
}

} // verus!
