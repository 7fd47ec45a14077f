//! Days of the week and sets of them.

use vstd::prelude::*;

verus! {

/// A day of the week.
#[derive(Debug, Clone, Copy, PartialEq, Eq, Structural)]
pub enum Weekday {
    Mon,
    Tue,
    Wed,
    Thu,
    Fri,
    Sat,
    Sun,
}

/// The day before `d`.
pub open spec fn previous_day(d: Weekday) -> Weekday {
    match d {
        Weekday::Mon => Weekday::Sun,
        Weekday::Tue => Weekday::Mon,
        Weekday::Wed => Weekday::Tue,
        Weekday::Thu => Weekday::Wed,
        Weekday::Fri => Weekday::Thu,
        Weekday::Sat => Weekday::Fri,
        Weekday::Sun => Weekday::Sat,
    }
}

/// Three-letter English name of a day, as used in configuration files
/// (`"Mon"` .. `"Sun"`).
pub open spec fn day_name(d: Weekday) -> Seq<char> {
    match d {
        Weekday::Mon => seq!['M', 'o', 'n'],
        Weekday::Tue => seq!['T', 'u', 'e'],
        Weekday::Wed => seq!['W', 'e', 'd'],
        Weekday::Thu => seq!['T', 'h', 'u'],
        Weekday::Fri => seq!['F', 'r', 'i'],
        Weekday::Sat => seq!['S', 'a', 't'],
        Weekday::Sun => seq!['S', 'u', 'n'],
    }
}

/// ASCII lower-casing of one character.
pub open spec fn lower_char(c: char) -> char {
    if 'A' <= c && c <= 'Z' {
        ((c as u32) + 32) as char
    } else {
        c
    }
}

/// ASCII lower-casing of a character sequence.
pub open spec fn lower(s: Seq<char>) -> Seq<char> {
    s.map_values(|c: char| lower_char(c))
}

/// The lower-case three-letter name of a day (`"mon"` .. `"sun"`).
pub open spec fn lower_day_name(d: Weekday) -> Seq<char> {
    lower(day_name(d))
}

/// The day whose three-letter name is exactly `n`, if any.
pub open spec fn day_with_name(n: Seq<char>) -> Option<Weekday> {
    if n == day_name(Weekday::Mon) {
        Some(Weekday::Mon)
    } else if n == day_name(Weekday::Tue) {
        Some(Weekday::Tue)
    } else if n == day_name(Weekday::Wed) {
        Some(Weekday::Wed)
    } else if n == day_name(Weekday::Thu) {
        Some(Weekday::Thu)
    } else if n == day_name(Weekday::Fri) {
        Some(Weekday::Fri)
    } else if n == day_name(Weekday::Sat) {
        Some(Weekday::Sat)
    } else if n == day_name(Weekday::Sun) {
        Some(Weekday::Sun)
    } else {
        None
    }
}

/// The day whose lower-case three-letter name is exactly `n`, if any.
pub open spec fn day_with_lower_name(n: Seq<char>) -> Option<Weekday> {
    if n == lower_day_name(Weekday::Mon) {
        Some(Weekday::Mon)
    } else if n == lower_day_name(Weekday::Tue) {
        Some(Weekday::Tue)
    } else if n == lower_day_name(Weekday::Wed) {
        Some(Weekday::Wed)
    } else if n == lower_day_name(Weekday::Thu) {
        Some(Weekday::Thu)
    } else if n == lower_day_name(Weekday::Fri) {
        Some(Weekday::Fri)
    } else if n == lower_day_name(Weekday::Sat) {
        Some(Weekday::Sat)
    } else if n == lower_day_name(Weekday::Sun) {
        Some(Weekday::Sun)
    } else {
        None
    }
}

impl Weekday {
    /// The day before this one (Monday's is Sunday).
    pub fn previous(self) -> (r: Weekday)
        ensures
            r == previous_day(self),
    {
        match self {
            Weekday::Mon => Weekday::Sun,
            Weekday::Tue => Weekday::Mon,
            Weekday::Wed => Weekday::Tue,
            Weekday::Thu => Weekday::Wed,
            Weekday::Fri => Weekday::Thu,
            Weekday::Sat => Weekday::Fri,
            Weekday::Sun => Weekday::Sat,
        }
    }

    /// The three-letter name of this day, as characters.
    pub fn name_chars(self) -> (r: Vec<char>)
        ensures
            r@ == day_name(self),
    {
        let r = match self {
            Weekday::Mon => vec!['M', 'o', 'n'],
            Weekday::Tue => vec!['T', 'u', 'e'],
            Weekday::Wed => vec!['W', 'e', 'd'],
            Weekday::Thu => vec!['T', 'h', 'u'],
            Weekday::Fri => vec!['F', 'r', 'i'],
            Weekday::Sat => vec!['S', 'a', 't'],
            Weekday::Sun => vec!['S', 'u', 'n'],
        };
        assert(r@ =~= day_name(self));
        r
    }

    /// The day named exactly `n` (`"Mon"` .. `"Sun"`), if any.
    pub fn from_name(n: &Vec<char>) -> (r: Option<Weekday>)
        ensures
            r == day_with_name(n@),
    {
        if n.len() != 3 {
            proof { lemma_names_have_length_three(); }
            return None;
        }
        let a = n[0];
        let b = n[1];
        let c = n[2];
        let r = if a == 'M' && b == 'o' && c == 'n' {
            Some(Weekday::Mon)
        } else if a == 'T' && b == 'u' && c == 'e' {
            Some(Weekday::Tue)
        } else if a == 'W' && b == 'e' && c == 'd' {
            Some(Weekday::Wed)
        } else if a == 'T' && b == 'h' && c == 'u' {
            Some(Weekday::Thu)
        } else if a == 'F' && b == 'r' && c == 'i' {
            Some(Weekday::Fri)
        } else if a == 'S' && b == 'a' && c == 't' {
            Some(Weekday::Sat)
        } else if a == 'S' && b == 'u' && c == 'n' {
            Some(Weekday::Sun)
        } else {
            None
        };
        proof {
            assert(n@ =~= seq![a, b, c]);
        }
        r
    }

    /// The day whose lower-case name is exactly `n` (`"mon"` .. `"sun"`), if any.
    pub fn from_lower_name(n: &Vec<char>) -> (r: Option<Weekday>)
        ensures
            r == day_with_lower_name(n@),
    {
        proof { lemma_lower_names(); }
        if n.len() != 3 {
            return None;
        }
        let a = n[0];
        let b = n[1];
        let c = n[2];
        let r = if a == 'm' && b == 'o' && c == 'n' {
            Some(Weekday::Mon)
        } else if a == 't' && b == 'u' && c == 'e' {
            Some(Weekday::Tue)
        } else if a == 'w' && b == 'e' && c == 'd' {
            Some(Weekday::Wed)
        } else if a == 't' && b == 'h' && c == 'u' {
            Some(Weekday::Thu)
        } else if a == 'f' && b == 'r' && c == 'i' {
            Some(Weekday::Fri)
        } else if a == 's' && b == 'a' && c == 't' {
            Some(Weekday::Sat)
        } else if a == 's' && b == 'u' && c == 'n' {
            Some(Weekday::Sun)
        } else {
            None
        };
        proof {
            assert(n@ =~= seq![a, b, c]);
        }
        r
    }
}

proof fn lemma_names_have_length_three()
    ensures
        forall|d: Weekday| #[trigger] day_name(d).len() == 3,
{
}

/// The lower-case day names, spelled out.
pub proof fn lemma_lower_names()
    ensures
        lower_day_name(Weekday::Mon) == seq!['m', 'o', 'n'],
        lower_day_name(Weekday::Tue) == seq!['t', 'u', 'e'],
        lower_day_name(Weekday::Wed) == seq!['w', 'e', 'd'],
        lower_day_name(Weekday::Thu) == seq!['t', 'h', 'u'],
        lower_day_name(Weekday::Fri) == seq!['f', 'r', 'i'],
        lower_day_name(Weekday::Sat) == seq!['s', 'a', 't'],
        lower_day_name(Weekday::Sun) == seq!['s', 'u', 'n'],
{
    assert(lower_day_name(Weekday::Mon) =~= seq!['m', 'o', 'n']);
    assert(lower_day_name(Weekday::Tue) =~= seq!['t', 'u', 'e']);
    assert(lower_day_name(Weekday::Wed) =~= seq!['w', 'e', 'd']);
    assert(lower_day_name(Weekday::Thu) =~= seq!['t', 'h', 'u']);
    assert(lower_day_name(Weekday::Fri) =~= seq!['f', 'r', 'i']);
    assert(lower_day_name(Weekday::Sat) =~= seq!['s', 'a', 't']);
    assert(lower_day_name(Weekday::Sun) =~= seq!['s', 'u', 'n']);
}


/// A set of days of the week.
///
/// One flag per day; the empty set means "no day".
#[derive(Debug, Clone, Copy, PartialEq, Eq, Structural)]
pub struct DaysOfWeek {
    pub mon: bool,
    pub tue: bool,
    pub wed: bool,
    pub thu: bool,
    pub fri: bool,
    pub sat: bool,
    pub sun: bool,
}

/// The list `[n]` when `b` holds, else the empty list.
pub open spec fn name_if(b: bool, d: Weekday) -> Seq<Seq<char>> {
    if b {
        seq![day_name(d)]
    } else {
        Seq::empty()
    }
}

impl DaysOfWeek {
    /// Whether day `d` is in the set.
    pub open spec fn has(self, d: Weekday) -> bool {
        match d {
            Weekday::Mon => self.mon,
            Weekday::Tue => self.tue,
            Weekday::Wed => self.wed,
            Weekday::Thu => self.thu,
            Weekday::Fri => self.fri,
            Weekday::Sat => self.sat,
            Weekday::Sun => self.sun,
        }
    }

    /// This set with day `d` added.
    pub open spec fn with_day(self, d: Weekday) -> DaysOfWeek {
        match d {
            Weekday::Mon => DaysOfWeek { mon: true, ..self },
            Weekday::Tue => DaysOfWeek { tue: true, ..self },
            Weekday::Wed => DaysOfWeek { wed: true, ..self },
            Weekday::Thu => DaysOfWeek { thu: true, ..self },
            Weekday::Fri => DaysOfWeek { fri: true, ..self },
            Weekday::Sat => DaysOfWeek { sat: true, ..self },
            Weekday::Sun => DaysOfWeek { sun: true, ..self },
        }
    }

    /// Whether every day of `other` is in this set.
    pub open spec fn includes(self, other: DaysOfWeek) -> bool {
        forall|d: Weekday| other.has(d) ==> self.has(d)
    }

    /// The names of the days in the set, Monday first.
    pub open spec fn names(self) -> Seq<Seq<char>> {
        name_if(self.mon, Weekday::Mon) + name_if(self.tue, Weekday::Tue) + name_if(
            self.wed,
            Weekday::Wed,
        ) + name_if(self.thu, Weekday::Thu) + name_if(self.fri, Weekday::Fri) + name_if(
            self.sat,
            Weekday::Sat,
        ) + name_if(self.sun, Weekday::Sun)
    }

    /// The empty set.
    pub fn empty() -> (r: DaysOfWeek)
        ensures
            r == no_days(),
            forall|d: Weekday| !r.has(d),
    {
        DaysOfWeek { mon: false, tue: false, wed: false, thu: false, fri: false, sat: false, sun: false }
    }

    /// The set of all seven days.
    pub fn all() -> (r: DaysOfWeek)
        ensures
            r == every_day(),
            forall|d: Weekday| r.has(d),
    {
        DaysOfWeek { mon: true, tue: true, wed: true, thu: true, fri: true, sat: true, sun: true }
    }

    /// The set holding only `d`.
    pub fn only(d: Weekday) -> (r: DaysOfWeek)
        ensures
            forall|e: Weekday| r.has(e) <==> e == d,
    {
        let mut r = DaysOfWeek::empty();
        r.insert(d);
        r
    }

    /// Whether day `d` is in the set.
    pub fn has_day(&self, d: Weekday) -> (r: bool)
        ensures
            r == self.has(d),
    {
        match d {
            Weekday::Mon => self.mon,
            Weekday::Tue => self.tue,
            Weekday::Wed => self.wed,
            Weekday::Thu => self.thu,
            Weekday::Fri => self.fri,
            Weekday::Sat => self.sat,
            Weekday::Sun => self.sun,
        }
    }

    /// Whether every day of `other` is also in this set.
    pub fn contains(&self, other: DaysOfWeek) -> (r: bool)
        ensures
            r == self.includes(other),
    {
        let r = (!other.mon || self.mon) && (!other.tue || self.tue) && (!other.wed || self.wed)
            && (!other.thu || self.thu) && (!other.fri || self.fri) && (!other.sat || self.sat)
            && (!other.sun || self.sun);
        proof {
            if !r {
                if other.mon && !self.mon { assert(other.has(Weekday::Mon)); }
                if other.tue && !self.tue { assert(other.has(Weekday::Tue)); }
                if other.wed && !self.wed { assert(other.has(Weekday::Wed)); }
                if other.thu && !self.thu { assert(other.has(Weekday::Thu)); }
                if other.fri && !self.fri { assert(other.has(Weekday::Fri)); }
                if other.sat && !self.sat { assert(other.has(Weekday::Sat)); }
                if other.sun && !self.sun { assert(other.has(Weekday::Sun)); }
            }
        }
        r
    }

    /// Add day `d` to the set.
    pub fn insert(&mut self, d: Weekday)
        ensures
            *final(self) == old(self).with_day(d),
            forall|e: Weekday| final(self).has(e) <==> (old(self).has(e) || e == d),
    {
        match d {
            Weekday::Mon => self.mon = true,
            Weekday::Tue => self.tue = true,
            Weekday::Wed => self.wed = true,
            Weekday::Thu => self.thu = true,
            Weekday::Fri => self.fri = true,
            Weekday::Sat => self.sat = true,
            Weekday::Sun => self.sun = true,
        }
    }

    /// The union of two sets.
    pub fn union(self, other: DaysOfWeek) -> (r: DaysOfWeek)
        ensures
            forall|d: Weekday| r.has(d) <==> (self.has(d) || other.has(d)),
    {
        DaysOfWeek {
            mon: self.mon || other.mon,
            tue: self.tue || other.tue,
            wed: self.wed || other.wed,
            thu: self.thu || other.thu,
            fri: self.fri || other.fri,
            sat: self.sat || other.sat,
            sun: self.sun || other.sun,
        }
    }

    /// Whether the set holds no day.
    pub fn is_empty(&self) -> (r: bool)
        ensures
            r <==> (forall|d: Weekday| !self.has(d)),
    {
        let r = !(self.mon || self.tue || self.wed || self.thu || self.fri || self.sat || self.sun);
        proof {
            if !r {
                if self.mon { assert(self.has(Weekday::Mon)); }
                if self.tue { assert(self.has(Weekday::Tue)); }
                if self.wed { assert(self.has(Weekday::Wed)); }
                if self.thu { assert(self.has(Weekday::Thu)); }
                if self.fri { assert(self.has(Weekday::Fri)); }
                if self.sat { assert(self.has(Weekday::Sat)); }
                if self.sun { assert(self.has(Weekday::Sun)); }
            }
        }
        r
    }

    /// The three-letter names of the days in the set, Monday first: the
    /// form in which a set is written to configuration files.
    pub fn names_list(&self) -> (r: Vec<Vec<char>>)
        ensures
            r@.len() == self.names().len(),
            forall|i: int| 0 <= i < r@.len() ==> #[trigger] r@[i]@ == self.names()[i],
    {
        let mut r: Vec<Vec<char>> = Vec::new();
        let ghost mut acc: Seq<Seq<char>> = Seq::empty();
        if self.mon { r.push(Weekday::Mon.name_chars()); }
        proof { acc = acc + name_if(self.mon, Weekday::Mon); }
        assert(r@.len() == acc.len() && forall|i: int| 0 <= i < r@.len() ==> #[trigger] r@[i]@ == acc[i]);
        if self.tue { r.push(Weekday::Tue.name_chars()); }
        proof { acc = acc + name_if(self.tue, Weekday::Tue); }
        assert(r@.len() == acc.len() && forall|i: int| 0 <= i < r@.len() ==> #[trigger] r@[i]@ == acc[i]);
        if self.wed { r.push(Weekday::Wed.name_chars()); }
        proof { acc = acc + name_if(self.wed, Weekday::Wed); }
        assert(r@.len() == acc.len() && forall|i: int| 0 <= i < r@.len() ==> #[trigger] r@[i]@ == acc[i]);
        if self.thu { r.push(Weekday::Thu.name_chars()); }
        proof { acc = acc + name_if(self.thu, Weekday::Thu); }
        assert(r@.len() == acc.len() && forall|i: int| 0 <= i < r@.len() ==> #[trigger] r@[i]@ == acc[i]);
        if self.fri { r.push(Weekday::Fri.name_chars()); }
        proof { acc = acc + name_if(self.fri, Weekday::Fri); }
        assert(r@.len() == acc.len() && forall|i: int| 0 <= i < r@.len() ==> #[trigger] r@[i]@ == acc[i]);
        if self.sat { r.push(Weekday::Sat.name_chars()); }
        proof { acc = acc + name_if(self.sat, Weekday::Sat); }
        assert(r@.len() == acc.len() && forall|i: int| 0 <= i < r@.len() ==> #[trigger] r@[i]@ == acc[i]);
        if self.sun { r.push(Weekday::Sun.name_chars()); }
        proof { acc = acc + name_if(self.sun, Weekday::Sun); }
        assert(acc =~= self.names());
        r
    }
}

/// The set with no day.
pub open spec fn no_days() -> DaysOfWeek {
    DaysOfWeek { mon: false, tue: false, wed: false, thu: false, fri: false, sat: false, sun: false }
}

/// The set with all seven days.
pub open spec fn every_day() -> DaysOfWeek {
    DaysOfWeek { mon: true, tue: true, wed: true, thu: true, fri: true, sat: true, sun: true }
}

/// Reading a list of three-letter day names: the set of the named days, or
/// the first name that is not one of `"Mon"` .. `"Sun"`.
pub open spec fn days_from_names(names: Seq<Seq<char>>) -> Result<DaysOfWeek, Seq<char>>
    decreases names.len(),
{
    if names.len() == 0 {
        Ok(no_days())
    } else {
        match days_from_names(names.drop_last()) {
            Err(e) => Err(e),
            Ok(set) => match day_with_name(names.last()) {
                Some(d) => Ok(set.with_day(d)),
                None => Err(names.last()),
            },
        }
    }
}

/// Read a list of three-letter day names (`"Mon"` .. `"Sun"`, exact case)
/// into a set. The first unknown name is returned as the error.
pub fn days_from_name_list(names: &Vec<String>) -> (r: Result<DaysOfWeek, Vec<char>>)
    ensures
        match r {
            Ok(d) => days_from_names(names@.map_values(|s: String| s@)) == Ok::<DaysOfWeek, Seq<char>>(d),
            Err(e) => days_from_names(names@.map_values(|s: String| s@)) == Err::<DaysOfWeek, Seq<char>>(e@),
        },
{
    let ghost all = names@.map_values(|s: String| s@);
    let mut days = DaysOfWeek::empty();
    assert(days == no_days());
    let mut i: usize = 0;
    while i < names.len()
        invariant
            i <= names.len(),
            all == names@.map_values(|s: String| s@),
            days_from_names(all.take(i as int)) == Ok::<DaysOfWeek, Seq<char>>(days),
        decreases names.len() - i,
    {
        let n = crate::text::chars_of(names[i].as_str());
        assert(all.take(i + 1).drop_last() =~= all.take(i as int));
        assert(all.take(i + 1).last() == n@);
        match Weekday::from_name(&n) {
            Some(d) => {
                days.insert(d);
            },
            None => {
                proof { lemma_names_prefix_error(all, (i + 1) as int); }
                return Err(n);
            },
        }
        i = i + 1;
    }
    assert(all.take(i as int) =~= all);
    Ok(days)
}

/// Once reading a prefix of a name list fails, reading the whole list fails
/// with the same name.
pub proof fn lemma_names_prefix_error(names: Seq<Seq<char>>, k: int)
    requires
        0 <= k <= names.len(),
        days_from_names(names.take(k)) is Err,
    ensures
        days_from_names(names) == days_from_names(names.take(k)),
    decreases names.len() - k,
{
    if k < names.len() {
        assert(names.take(k + 1).drop_last() =~= names.take(k));
        lemma_names_prefix_error(names, k + 1);
    } else {
        assert(names.take(k) =~= names);
    }
}

/// Each day's name reads back as that day.
proof fn lemma_day_with_own_name(d: Weekday)
    ensures
        day_with_name(day_name(d)) == Some(d),
{
    let n = day_name(d);
    match d {
        Weekday::Mon => {},
        Weekday::Tue => {
            assert(n[0] != day_name(Weekday::Mon)[0]);
        },
        Weekday::Wed => {
            assert(n[0] != day_name(Weekday::Mon)[0]);
            assert(n[0] != day_name(Weekday::Tue)[0]);
        },
        Weekday::Thu => {
            assert(n[0] != day_name(Weekday::Mon)[0]);
            assert(n[1] != day_name(Weekday::Tue)[1]);
            assert(n[0] != day_name(Weekday::Wed)[0]);
        },
        Weekday::Fri => {
            assert(n[0] != day_name(Weekday::Mon)[0]);
            assert(n[0] != day_name(Weekday::Tue)[0]);
            assert(n[0] != day_name(Weekday::Wed)[0]);
            assert(n[0] != day_name(Weekday::Thu)[0]);
        },
        Weekday::Sat => {
            assert(n[0] != day_name(Weekday::Mon)[0]);
            assert(n[0] != day_name(Weekday::Tue)[0]);
            assert(n[0] != day_name(Weekday::Wed)[0]);
            assert(n[0] != day_name(Weekday::Thu)[0]);
            assert(n[0] != day_name(Weekday::Fri)[0]);
        },
        Weekday::Sun => {
            assert(n[0] != day_name(Weekday::Mon)[0]);
            assert(n[0] != day_name(Weekday::Tue)[0]);
            assert(n[0] != day_name(Weekday::Wed)[0]);
            assert(n[0] != day_name(Weekday::Thu)[0]);
            assert(n[0] != day_name(Weekday::Fri)[0]);
            assert(n[1] != day_name(Weekday::Sat)[1]);
        },
    }
}

/// Reading a list with one more (optional) day name appended.
proof fn lemma_read_appended(a: Seq<Seq<char>>, b: bool, d: Weekday)
    ensures
        days_from_names(a + name_if(b, d)) == match days_from_names(a) {
            Ok(s) => Ok::<DaysOfWeek, Seq<char>>(
                if b {
                    s.with_day(d)
                } else {
                    s
                },
            ),
            Err(e) => Err(e),
        },
{
    let full = a + name_if(b, d);
    if b {
        assert(full.drop_last() =~= a);
        assert(full.last() == day_name(d));
        lemma_day_with_own_name(d);
    } else {
        assert(full =~= a);
    }
}

/// Writing a set as its list of names and reading that list back gives the
/// same set.
pub proof fn law_day_names_round_trip(days: DaysOfWeek)
    ensures
        days_from_names(days.names()) == Ok::<DaysOfWeek, Seq<char>>(days),
{
    let e: Seq<Seq<char>> = Seq::empty();
    let p1 = name_if(days.mon, Weekday::Mon);
    let p2 = p1 + name_if(days.tue, Weekday::Tue);
    let p3 = p2 + name_if(days.wed, Weekday::Wed);
    let p4 = p3 + name_if(days.thu, Weekday::Thu);
    let p5 = p4 + name_if(days.fri, Weekday::Fri);
    let p6 = p5 + name_if(days.sat, Weekday::Sat);
    assert(e + p1 =~= p1);
    lemma_read_appended(e, days.mon, Weekday::Mon);
    lemma_read_appended(p1, days.tue, Weekday::Tue);
    lemma_read_appended(p2, days.wed, Weekday::Wed);
    lemma_read_appended(p3, days.thu, Weekday::Thu);
    lemma_read_appended(p4, days.fri, Weekday::Fri);
    lemma_read_appended(p5, days.sat, Weekday::Sat);
    lemma_read_appended(p6, days.sun, Weekday::Sun);
}

impl Default for DaysOfWeek {
    /// The empty set.
    fn default() -> (r: DaysOfWeek)
        ensures
            forall|d: Weekday| !r.has(d),
    {
        DaysOfWeek::empty()
    }
}

} // verus!
