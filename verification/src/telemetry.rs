//! The gauges that the telemetry proxy reports, as its configuration lists them.
use vstd::prelude::*;
use crate::text::string_views;

verus! {

/// One metric of the proxy's configuration.
pub struct InputMetric {
    pub name: String,
    pub unit: String,
    pub description: Option<String>,
}

/// What a gauge is created with: its name, description and unit.
pub struct GaugeDefinition {
    pub name: String,
    pub description: String,
    pub unit: String,
}

/// The gauge definition of a configured metric: an absent description is empty.
pub open spec fn defines(input: InputMetric, def: GaugeDefinition) -> bool {
    &&& def.name@ == input.name@
    &&& def.unit@ == input.unit@
    &&& def.description@ == match input.description {
        Some(d) => d@,
        None => Seq::<char>::empty(),
    }
}

/// The names of configured metrics.
pub open spec fn input_names(inputs: Seq<InputMetric>) -> Seq<Seq<char>> {
    inputs.map_values(|m: InputMetric| m.name@)
}

/// Whether `names` holds each of `source`'s names exactly once and nothing else.
pub open spec fn distinct_names_of(names: Seq<Seq<char>>, source: Seq<Seq<char>>) -> bool {
    &&& names.no_duplicates()
    &&& forall|n: Seq<char>| #[trigger] names.contains(n) <==> source.contains(n)
}

/// Whether the entry at `i` is the last with its name in `source`.
pub open spec fn is_last_occurrence(source: Seq<Seq<char>>, i: int) -> bool {
    forall|j: int| i < j < source.len() ==> #[trigger] source[j] != source[i]
}

/// Whether, for each registered name, `kept` gives the position in `source`
/// of the last entry with that name.
pub open spec fn keeps_last(names: Seq<Seq<char>>, kept: Seq<usize>, source: Seq<Seq<char>>) -> bool {
    &&& kept.len() == names.len()
    &&& forall|k: int|
        0 <= k < names.len() ==> {
            &&& #[trigger] kept[k] < source.len()
            &&& source[kept[k] as int] == names[k]
            &&& is_last_occurrence(source, kept[k] as int)
        }
}

/// The gauges the proxy creates, one per configured metric in order, the
/// names under which it records them, and for each name the position of the
/// gauge it keeps.
pub struct MetricCatalog {
    definitions: Vec<GaugeDefinition>,
    names: Vec<String>,
    kept: Vec<usize>,
}

impl MetricCatalog {
    /// The gauge definitions, one per configured metric.
    pub closed spec fn spec_definitions(&self) -> Seq<GaugeDefinition> {
        self.definitions@
    }

    /// The names under which gauges are registered, each once.
    pub closed spec fn spec_names(&self) -> Seq<Seq<char>> {
        string_views(self.names@)
    }

    /// For each registered name, the position of the definition whose gauge
    /// is recorded under it.
    pub closed spec fn spec_kept(&self) -> Seq<usize> {
        self.kept@
    }

    /// For each registered name (in the order of `names`), the position of
    /// the definition whose gauge is recorded under it.
    pub fn kept(&self) -> (r: &Vec<usize>)
        ensures
            r@ == self.spec_kept(),
    {
        &self.kept
    }

    /// The gauge definitions, one per configured metric.
    pub fn definitions(&self) -> (r: &Vec<GaugeDefinition>)
        ensures
            r@ == self.spec_definitions(),
    {
        &self.definitions
    }

    /// The names under which gauges are registered, each once.
    pub fn names(&self) -> (r: &Vec<String>)
        ensures
            string_views(r@) == self.spec_names(),
    {
        &self.names
    }

    /// Whether a gauge is registered under `name`.
    pub fn contains(&self, name: &String) -> (r: bool)
        ensures
            r == self.spec_names().contains(name@),
    {
        contains_name(&self.names, name)
    }
}

/// The position of `name` in `names`, if it is there.
fn find_name(names: &Vec<String>, name: &String) -> (r: Option<usize>)
    ensures
        match r {
            Some(p) => p < names@.len() && string_views(names@)[p as int] == name@,
            None => !string_views(names@).contains(name@),
        },
{
    let mut i: usize = 0;
    while i < names.len()
        invariant
            i <= names@.len(),
            forall|j: int| 0 <= j < i ==> string_views(names@)[j] != name@,
        decreases names@.len() - i,
    {
        if names[i] == *name {
            return Some(i);
        }
        i = i + 1;
    }
    None
}

/// Whether `name` is one of `names`.
fn contains_name(names: &Vec<String>, name: &String) -> (r: bool)
    ensures
        r == string_views(names@).contains(name@),
{
    match find_name(names, name) {
        Some(p) => {
            assert(string_views(names@)[p as int] == name@);
            true
        },
        None => false,
    }
}

/// The proxy's gauges.
pub struct MetricFactory {}

impl MetricFactory {
    /// The gauges for the configured metrics: one definition per metric, in
    /// the configuration's order; the set of names, in which a name
    /// configured twice stands once; and for each name, the last definition
    /// with that name, whose gauge is the one recorded under it.
    pub fn create(metrics: Vec<InputMetric>) -> (r: MetricCatalog)
        ensures
            r.spec_definitions().len() == metrics@.len(),
            forall|i: int| 0 <= i < metrics@.len() ==> defines(metrics@[i], #[trigger] r.spec_definitions()[i]),
            forall|i: int|
                0 <= i < metrics@.len() ==> {
                    &&& (#[trigger] r.spec_definitions()[i]).name@ == metrics@[i].name@
                    &&& r.spec_definitions()[i].unit@ == metrics@[i].unit@
                    &&& metrics@[i].description matches Some(d) ==> r.spec_definitions()[i].description@ == d@
                    &&& metrics@[i].description is None ==> r.spec_definitions()[i].description@.len() == 0
                },
            distinct_names_of(r.spec_names(), input_names(metrics@)),
            keeps_last(r.spec_names(), r.spec_kept(), input_names(metrics@)),
    {
        let mut definitions: Vec<GaugeDefinition> = Vec::new();
        let mut names: Vec<String> = Vec::new();
        let mut kept: Vec<usize> = Vec::new();
        let mut i: usize = 0;
        while i < metrics.len()
            invariant
                i <= metrics@.len(),
                definitions@.len() == i,
                forall|j: int| 0 <= j < i ==> defines(metrics@[j], #[trigger] definitions@[j]),
                distinct_names_of(string_views(names@), input_names(metrics@).subrange(0, i as int)),
                keeps_last(string_views(names@), kept@, input_names(metrics@).subrange(0, i as int)),
            decreases metrics@.len() - i,
        {
            let metric = &metrics[i];
            let description = match &metric.description {
                Some(d) => d.clone(),
                None => String::new(),
            };
            definitions.push(GaugeDefinition { name: metric.name.clone(), description, unit: metric.unit.clone() });
            let ghost before = string_views(names@);
            let ghost kept_before = kept@;
            let ghost prefix = input_names(metrics@).subrange(0, i as int);
            let ghost next_prefix = input_names(metrics@).subrange(0, i + 1);
            assert(next_prefix =~= prefix.push(metric.name@));
            assert(forall|n: Seq<char>| before.contains(n) <==> prefix.contains(n));
            let found = find_name(&names, &metric.name);
            match found {
                Some(p) => {
                    kept.set(p, i);
                    assert forall|k: int| 0 <= k < before.len() implies {
                        &&& #[trigger] kept@[k] < next_prefix.len()
                        &&& next_prefix[kept@[k] as int] == before[k]
                        &&& is_last_occurrence(next_prefix, kept@[k] as int)
                    } by {
                        if k != p {
                            assert(before[k] != before[p as int]);
                            assert(kept@[k] == kept_before[k]);
                            assert(prefix[kept_before[k] as int] == before[k]);
                            assert forall|j: int| kept@[k] < j < next_prefix.len() implies #[trigger] next_prefix[j]
                                != next_prefix[kept@[k] as int] by {
                                if j < i {
                                    assert(prefix[j] == next_prefix[j]);
                                }
                            }
                        }
                    }
                },
                None => {
                    names.push(metric.name.clone());
                    kept.push(i);
                    assert(string_views(names@) =~= before.push(metric.name@));
                    assert forall|k: int| 0 <= k < string_views(names@).len() implies {
                        &&& #[trigger] kept@[k] < next_prefix.len()
                        &&& next_prefix[kept@[k] as int] == string_views(names@)[k]
                        &&& is_last_occurrence(next_prefix, kept@[k] as int)
                    } by {
                        if k < before.len() {
                            assert(before.contains(before[k]));
                            assert(before[k] != metric.name@);
                            assert(kept@[k] == kept_before[k]);
                            assert(prefix[kept_before[k] as int] == before[k]);
                            assert forall|j: int| kept@[k] < j < next_prefix.len() implies #[trigger] next_prefix[j]
                                != next_prefix[kept@[k] as int] by {
                                if j < i {
                                    assert(prefix[j] == next_prefix[j]);
                                }
                            }
                        }
                    }
                },
            }
            let present = found.is_some();
            assert forall|n: Seq<char>| #[trigger] string_views(names@).contains(n) <==> next_prefix.contains(n) by {
                assert(next_prefix.contains(n) <==> (prefix.contains(n) || n == metric.name@)) by {
                    if next_prefix.contains(n) {
                        let k = choose|k: int| 0 <= k < next_prefix.len() && next_prefix[k] == n;
                        if k < i {
                            assert(prefix[k] == n);
                        }
                    }
                    if prefix.contains(n) {
                        let k = choose|k: int| 0 <= k < prefix.len() && prefix[k] == n;
                        assert(next_prefix[k] == n);
                    }
                    if n == metric.name@ {
                        assert(next_prefix[i as int] == n);
                    }
                }
                if present {
                    assert(string_views(names@) == before);
                } else {
                    assert(string_views(names@).contains(n) <==> (before.contains(n) || n == metric.name@)) by {
                        if string_views(names@).contains(n) {
                            let k = choose|k: int| 0 <= k < string_views(names@).len() && string_views(names@)[k] == n;
                            if k < before.len() {
                                assert(before[k] == n);
                            }
                        }
                        if before.contains(n) {
                            let k = choose|k: int| 0 <= k < before.len() && before[k] == n;
                            assert(string_views(names@)[k] == n);
                        }
                        if n == metric.name@ {
                            assert(string_views(names@)[before.len() as int] == n);
                        }
                    }
                }
            }
            i = i + 1;
        }
        assert(input_names(metrics@).subrange(0, metrics@.len() as int) =~= input_names(metrics@));
        MetricCatalog { definitions, names, kept }
    }
}

/// A gauge definition carries its metric's name and unit unchanged, whatever
/// the description; the description is the configured one, or empty.
pub proof fn lemma_definition_keeps_metric(input: InputMetric, def: GaugeDefinition)
    requires
        defines(input, def),
    ensures
        def.name@ == input.name@,
        def.unit@ == input.unit@,
        input.description matches Some(d) ==> def.description@ == d@,
        input.description is None ==> def.description@.len() == 0,
{
}

} // verus!
