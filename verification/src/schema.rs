//! Schema keys and the registry mapping them to record kinds.

use vstd::prelude::*;

verus! {

/// The composite key of a section: the category, report type and version
/// marker taken from a header row's leading fields.
#[derive(Clone, Debug)]
pub struct SchemaKey {
    pub category: String,
    pub report_type: String,
    pub version: String,
}

impl View for SchemaKey {
    type V = (Seq<char>, Seq<char>, Seq<char>);

    open spec fn view(&self) -> Self::V {
        (self.category@, self.report_type@, self.version@)
    }
}

impl SchemaKey {
    /// Builds a key from its three components.
    pub fn new(category: String, report_type: String, version: String) -> (r: SchemaKey)
        ensures
            r@ == (category@, report_type@, version@),
    {
        SchemaKey { category, report_type, version }
    }

    /// Returns whether the two keys agree in all three components.
    pub fn matches(&self, other: &SchemaKey) -> (r: bool)
        ensures
            r == (self@ == other@),
    {
        let r = self.category == other.category && self.report_type == other.report_type
            && self.version == other.version;
        r
    }
}

/// The closed set of record kinds the registry can dispatch to.
#[derive(Clone, Copy, Debug, PartialEq, Eq, Structural)]
pub enum RecordKind {
    Interconnector,
    Price,
    RooftopPvActual,
    RooftopPvForecast,
}

/// The kind registered under `key`, searching entries in order.
pub open spec fn spec_lookup(
    entries: Seq<((Seq<char>, Seq<char>, Seq<char>), RecordKind)>,
    key: (Seq<char>, Seq<char>, Seq<char>),
) -> Option<RecordKind>
    decreases entries.len(),
{
    if entries.len() == 0 {
        None
    } else if entries[0].0 == key {
        Some(entries[0].1)
    } else {
        spec_lookup(entries.skip(1), key)
    }
}

/// An ordered mapping from schema keys to record kinds, built once before
/// parsing begins and then only read.
#[derive(Clone, Debug)]
pub struct SchemaRegistry {
    pub entries: Vec<(SchemaKey, RecordKind)>,
}

impl View for SchemaRegistry {
    type V = Seq<((Seq<char>, Seq<char>, Seq<char>), RecordKind)>;

    open spec fn view(&self) -> Self::V {
        self.entries@.map_values(|e: (SchemaKey, RecordKind)| (e.0@, e.1))
    }
}

impl SchemaRegistry {
    /// Creates an empty registry.
    pub fn new() -> (r: SchemaRegistry)
        ensures
            r@ =~= Seq::<((Seq<char>, Seq<char>, Seq<char>), RecordKind)>::empty(),
    {
        SchemaRegistry { entries: Vec::new() }
    }

    /// Registers a schema: later lookups of `key` that no earlier entry
    /// answers yield `kind`.
    pub fn register(&mut self, key: SchemaKey, kind: RecordKind)
        ensures
            final(self)@ =~= old(self)@.push((key@, kind)),
    {
        self.entries.push((key, kind));
        proof {
            assert(self@ =~= old(self)@.push((key@, kind)));
        }
    }

    /// Looks up the kind registered under `key`: the first entry with an
    /// exactly matching key answers, and an unknown key answers nothing.
    pub fn lookup(&self, key: &SchemaKey) -> (r: Option<RecordKind>)
        ensures
            r == spec_lookup(self@, key@),
    {
        let n = self.entries.len();
        proof {
            assert(self@.skip(0) =~= self@);
        }
        let mut i: usize = 0;
        while i < n
            invariant
                n == self.entries@.len(),
                i <= n,
                spec_lookup(self@, key@) == spec_lookup(self@.skip(i as int), key@),
            decreases n - i,
        {
            let entry = &self.entries[i];
            if entry.0.matches(key) {
                proof {
                    assert(self@.skip(i as int)[0] == (entry.0@, entry.1));
                }
                return Some(entry.1);
            }
            proof {
                assert(self@.skip(i as int)[0] == (entry.0@, entry.1));
                assert(self@.skip(i as int).skip(1) =~= self@.skip(i + 1));
            }
            i += 1;
        }
        proof {
            assert(self@.skip(n as int) =~= Seq::<
                ((Seq<char>, Seq<char>, Seq<char>), RecordKind),
            >::empty());
        }
        None
    }
}

/// The keys of the four known dataset kinds.
pub open spec fn spec_default_entries() -> Seq<((Seq<char>, Seq<char>, Seq<char>), RecordKind)> {
    seq![
        (("TRADING"@, "INTERCONNECTORRES"@, "2"@), RecordKind::Interconnector),
        (("TRADING"@, "PRICE"@, "3"@), RecordKind::Price),
        (("ROOFTOP"@, "ACTUAL"@, "2"@), RecordKind::RooftopPvActual),
        (("ROOFTOP"@, "FORECAST"@, "1"@), RecordKind::RooftopPvForecast),
    ]
}

/// Builds the registry of the four known dataset kinds: interconnector
/// flows, regional prices, rooftop-PV actuals and rooftop-PV forecasts.
pub fn default_registry() -> (r: SchemaRegistry)
    ensures
        r@ =~= spec_default_entries(),
{
    let mut r = SchemaRegistry::new();
    r.register(
        SchemaKey::new(
            String::from_str("TRADING"),
            String::from_str("INTERCONNECTORRES"),
            String::from_str("2"),
        ),
        RecordKind::Interconnector,
    );
    r.register(
        SchemaKey::new(
            String::from_str("TRADING"),
            String::from_str("PRICE"),
            String::from_str("3"),
        ),
        RecordKind::Price,
    );
    r.register(
        SchemaKey::new(
            String::from_str("ROOFTOP"),
            String::from_str("ACTUAL"),
            String::from_str("2"),
        ),
        RecordKind::RooftopPvActual,
    );
    r.register(
        SchemaKey::new(
            String::from_str("ROOFTOP"),
            String::from_str("FORECAST"),
            String::from_str("1"),
        ),
        RecordKind::RooftopPvForecast,
    );
    r
}

} // verus!
