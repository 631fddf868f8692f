//! The process configuration: the series names and the per-category entity
//! lists, built once from flat text values and passed into the pipeline.
//! The series value is comma-separated, positionally: sensor series,
//! ambient series, then the electrical series shared by AC and DC. Each
//! entity list is comma-separated; empty text configures no entities.

use vstd::prelude::*;
use vstd::string::StrSliceExecFns;
use vstd::string::StringExecFns;

verus! {

/// The comma-separated segments of `s`, in order. Text without commas is
/// one segment; every comma ends a segment, so empty text is one empty
/// segment and a trailing comma ends with one.
pub open spec fn split_commas(s: Seq<char>) -> Seq<Seq<char>>
    decreases s.len(),
{
    if s.len() == 0 {
        seq![Seq::<char>::empty()]
    } else {
        let pre = split_commas(s.drop_last());
        if s.last() == ',' {
            pre.push(Seq::empty())
        } else {
            pre.drop_last().push(pre.last().push(s.last()))
        }
    }
}

/// Splitting always yields at least one segment.
proof fn lemma_split_commas_nonempty(s: Seq<char>)
    ensures
        split_commas(s).len() >= 1,
    decreases s.len(),
{
    if s.len() > 0 {
        lemma_split_commas_nonempty(s.drop_last());
    }
}

/// Splits `s` at every comma, in order.
pub fn split_list(s: &str) -> (r: Vec<String>)
    ensures
        r@.len() == split_commas(s@).len(),
        forall|k: int| 0 <= k < r@.len() ==> (#[trigger] r@[k])@ == split_commas(s@)[k],
{
    let n = s.unicode_len();
    let mut parts: Vec<String> = Vec::new();
    let mut seg_start: usize = 0;
    let mut i: usize = 0;
    proof {
        assert(s@.subrange(0, 0) =~= Seq::<char>::empty());
    }
    while i < n
        invariant
            seg_start <= i <= n,
            n == s@.len(),
            parts@.len() + 1 == split_commas(s@.subrange(0, i as int)).len(),
            forall|k: int|
                0 <= k < parts@.len() ==> (#[trigger] parts@[k])@ == split_commas(
                    s@.subrange(0, i as int),
                )[k],
            s@.subrange(seg_start as int, i as int) == split_commas(
                s@.subrange(0, i as int),
            ).last(),
        decreases n - i,
    {
        proof {
            assert(s@.subrange(0, i + 1).drop_last() =~= s@.subrange(0, i as int));
            assert(s@.subrange(0, i + 1).last() == s@[i as int]);
            lemma_split_commas_nonempty(s@.subrange(0, i as int));
        }
        let c = s.get_char(i);
        if c == ',' {
            let seg = s.substring_char(seg_start, i);
            parts.push(seg.to_owned());
            seg_start = i + 1;
            proof {
                assert(s@.subrange(seg_start as int, i + 1) =~= Seq::<char>::empty());
            }
        } else {
            proof {
                assert(s@.subrange(seg_start as int, i + 1) =~= s@.subrange(
                    seg_start as int,
                    i as int,
                ).push(s@[i as int]));
            }
        }
        i = i + 1;
    }
    proof {
        assert(s@.subrange(0, n as int) =~= s@);
    }
    let last_seg = s.substring_char(seg_start, n);
    parts.push(last_seg.to_owned());
    parts
}

/// The configured entities of one category: none for empty text, else the
/// comma-separated identifiers.
pub open spec fn entity_list(s: Seq<char>) -> Seq<Seq<char>> {
    if s.len() == 0 {
        Seq::empty()
    } else {
        split_commas(s)
    }
}

/// Builds one category's entity list from its text value.
pub fn entity_list_of(s: &str) -> (r: Vec<String>)
    ensures
        r@.len() == entity_list(s@).len(),
        forall|k: int| 0 <= k < r@.len() ==> (#[trigger] r@[k])@ == entity_list(s@)[k],
{
    if s.is_empty() {
        Vec::new()
    } else {
        split_list(s)
    }
}

/// The configuration of one pipeline pass: the three series names and the
/// four ordered entity lists.
pub struct Config {
    pub sensor_series: String,
    pub ambient_series: String,
    pub electrical_series: String,
    pub surface_devices: Vec<String>,
    pub ambient_devices: Vec<String>,
    pub ac_channels: Vec<String>,
    pub dc_channels: Vec<String>,
}

/// A required configuration value is absent.
#[derive(Clone, Copy, Debug, PartialEq, Eq, Structural)]
pub enum ConfigError {
    /// The series value names fewer than three series.
    MissingSeries,
}

impl Config {
    /// Builds the configuration from the flat text values: the
    /// comma-separated series names (sensor, ambient, electrical, in that
    /// order) and the four comma-separated entity lists. Fails exactly when
    /// fewer than three series are named.
    pub fn from_values(series: &str, surface: &str, ambient: &str, ac: &str, dc: &str) -> (r:
        Result<Config, ConfigError>)
        ensures
            r is Ok <==> split_commas(series@).len() >= 3,
            r matches Ok(c) ==> c.sensor_series@ == split_commas(series@)[0]
                && c.ambient_series@ == split_commas(series@)[1] && c.electrical_series@
                == split_commas(series@)[2],
            r matches Ok(c) ==> c.surface_devices@.len() == entity_list(surface@).len() && (
            forall|k: int|
                0 <= k < c.surface_devices@.len() ==> (#[trigger] c.surface_devices@[k])@
                    == entity_list(surface@)[k]),
            r matches Ok(c) ==> c.ambient_devices@.len() == entity_list(ambient@).len() && (
            forall|k: int|
                0 <= k < c.ambient_devices@.len() ==> (#[trigger] c.ambient_devices@[k])@
                    == entity_list(ambient@)[k]),
            r matches Ok(c) ==> c.ac_channels@.len() == entity_list(ac@).len() && (forall|k: int|
                0 <= k < c.ac_channels@.len() ==> (#[trigger] c.ac_channels@[k])@ == entity_list(
                    ac@,
                )[k]),
            r matches Ok(c) ==> c.dc_channels@.len() == entity_list(dc@).len() && (forall|k: int|
                0 <= k < c.dc_channels@.len() ==> (#[trigger] c.dc_channels@[k])@ == entity_list(
                    dc@,
                )[k]),
            r matches Err(e) ==> e == ConfigError::MissingSeries,
    {
        let mut names = split_list(series);
        if names.len() < 3 {
            return Err(ConfigError::MissingSeries);
        }
        let electrical_series = names.remove(2);
        let ambient_series = names.remove(1);
        let sensor_series = names.remove(0);
        Ok(
            Config {
                sensor_series,
                ambient_series,
                electrical_series,
                surface_devices: entity_list_of(surface),
                ambient_devices: entity_list_of(ambient),
                ac_channels: entity_list_of(ac),
                dc_channels: entity_list_of(dc),
            },
        )
    }
}

} // verus!
