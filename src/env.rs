use vstd::prelude::*;
use vstd::string::StringExecFns;

verus! {

/// Why a variable could not be read as text.
#[derive(Clone, Copy, Debug, PartialEq, Eq, Structural)]
pub enum LookupError {
    /// The variable is not set.
    NotPresent,
    /// The variable is set, but its value is not valid Unicode.
    InvalidEncoding,
}

/// What one entry records for its name.
enum Slot {
    Unset,
    NotUnicode,
    Text(String),
}

/// The state of a slot: `None` when unset, `Some(None)` when the value is not
/// valid Unicode, `Some(Some(v))` when it is the text `v`.
spec fn slot_state(s: Slot) -> Option<Option<Seq<char>>> {
    match s {
        Slot::Unset => None,
        Slot::NotUnicode => Some(None),
        Slot::Text(v) => Some(Some(v@)),
    }
}

/// The state of `name` after the writes in `entries`, the last one winning.
spec fn state_of(entries: Seq<(String, Slot)>, name: Seq<char>) -> Option<Option<Seq<char>>>
    decreases entries.len(),
{
    if entries.len() == 0 {
        None
    } else if entries.last().0@ == name {
        slot_state(entries.last().1)
    } else {
        state_of(entries.drop_last(), name)
    }
}

/// A set of environment variables, as the build orchestrator hands them to a
/// build script. A name maps to `Some(text)`, or to `None` when its value is
/// not valid Unicode.
pub struct Environment {
    entries: Vec<(String, Slot)>,
}

impl View for Environment {
    type V = Map<Seq<char>, Option<Seq<char>>>;

    closed spec fn view(&self) -> Map<Seq<char>, Option<Seq<char>>> {
        Map::new(
            |k: Seq<char>| state_of(self.entries@, k) is Some,
            |k: Seq<char>| state_of(self.entries@, k)->0,
        )
    }
}

/// What reading `name` as text gives in `env`.
pub open spec fn lookup(env: Map<Seq<char>, Option<Seq<char>>>, name: Seq<char>) -> Result<
    Seq<char>,
    LookupError,
> {
    if !env.contains_key(name) {
        Err(LookupError::NotPresent)
    } else {
        match env[name] {
            Some(v) => Ok(v),
            None => Err(LookupError::InvalidEncoding),
        }
    }
}

/// The text of a read, as a mathematical value.
pub open spec fn text_result(r: Result<String, LookupError>) -> Result<Seq<char>, LookupError> {
    match r {
        Ok(v) => Ok(v@),
        Err(e) => Err(e),
    }
}

impl Environment {
    /// An environment where no variable is set.
    pub fn new() -> (r: Environment)
        ensures
            r@ == Map::<Seq<char>, Option<Seq<char>>>::empty(),
    {
        let r = Environment { entries: Vec::new() };
        assert(r@ =~= Map::<Seq<char>, Option<Seq<char>>>::empty());
        r
    }

    fn record(&mut self, name: &str, slot: Slot)
        ensures
            final(self)@ == match slot_state(slot) {
                Some(v) => old(self)@.insert(name@, v),
                None => old(self)@.remove(name@),
            },
    {
        self.entries.push((String::from_str(name), slot));
        proof {
            let e = final(self).entries@;
            assert(e.drop_last() == old(self).entries@);
        }
        assert(final(self)@ =~= match slot_state(slot) {
            Some(v) => old(self)@.insert(name@, v),
            None => old(self)@.remove(name@),
        });
    }

    /// Sets `name` to the text `value`.
    pub fn set(&mut self, name: &str, value: &str)
        ensures
            final(self)@ == old(self)@.insert(name@, Some(value@)),
    {
        self.record(name, Slot::Text(String::from_str(value)));
    }

    /// Sets `name` to a value that is not valid Unicode.
    pub fn set_not_unicode(&mut self, name: &str)
        ensures
            final(self)@ == old(self)@.insert(name@, None),
    {
        self.record(name, Slot::NotUnicode);
    }

    /// Unsets `name`.
    pub fn remove(&mut self, name: &str)
        ensures
            final(self)@ == old(self)@.remove(name@),
    {
        self.record(name, Slot::Unset);
    }

    /// The value of `name` as text.
    pub fn var(&self, name: &str) -> (r: Result<String, LookupError>)
        ensures
            text_result(r) == lookup(self@, name@),
    {
        let key = String::from_str(name);
        let mut i: usize = self.entries.len();
        assert(self.entries@.subrange(0, i as int) =~= self.entries@);
        while i > 0
            invariant
                i <= self.entries@.len(),
                key@ == name@,
                state_of(self.entries@.subrange(0, i as int), name@) == state_of(
                    self.entries@,
                    name@,
                ),
            decreases i,
        {
            let entry = &self.entries[i - 1];
            assert(self.entries@.subrange(0, i as int).drop_last() =~= self.entries@.subrange(
                0,
                i - 1,
            ));
            if entry.0 == key {
                return match &entry.1 {
                    Slot::Unset => Err(LookupError::NotPresent),
                    Slot::NotUnicode => Err(LookupError::InvalidEncoding),
                    Slot::Text(v) => Ok(v.clone()),
                };
            }
            i = i - 1;
        }
        Err(LookupError::NotPresent)
    }

    /// Whether `name` is set, to any value.
    pub fn is_set(&self, name: &str) -> (r: bool)
        ensures
            r == self@.contains_key(name@),
    {
        match self.var(name) {
            Err(LookupError::NotPresent) => false,
            _ => true,
        }
    }
}

} // verus!
