//! Turning the rows of the configuration store into settings.
//!
//! The store keeps one row per setting: a namespace (for non-volatile
//! settings), a name and an optional value. Rows without a value are skipped,
//! and a later row for the same setting overrides an earlier one.
use vstd::prelude::*;

use crate::config::{WillowNvsConfig, WillowNvsWas, WillowNvsWifi};
use crate::text::same_text;

verus! {

/// One row of the configuration store.
#[derive(Clone, Debug, PartialEq, Eq)]
pub struct ConfigRow {
    pub namespace: String,
    pub name: String,
    pub value: Option<String>,
}

/// A row as plain text.
pub open spec fn row_view(r: ConfigRow) -> (Seq<char>, Seq<char>, Option<Seq<char>>) {
    (
        r.namespace@,
        r.name@,
        match r.value {
            Some(v) => Some(v@),
            None => None,
        },
    )
}

/// The value of the last row with this namespace and name that has a value.
pub open spec fn last_value(rows: Seq<ConfigRow>, namespace: Seq<char>, name: Seq<char>) -> Option<Seq<char>>
    decreases rows.len(),
{
    if rows.len() == 0 {
        None
    } else {
        let (ns, n, v) = row_view(rows.last());
        if ns == namespace && n == name && v is Some {
            v
        } else {
            last_value(rows.drop_last(), namespace, name)
        }
    }
}

/// Why stored non-volatile settings are incomplete.
#[derive(Clone, Copy, Debug, PartialEq, Eq)]
pub enum NvsError {
    MissingWasUrl,
    MissingWifiPsk,
    MissingWifiSsid,
}

/// The value of the last row with this namespace and name that has one.
pub fn find_last(rows: &Vec<ConfigRow>, namespace: &str, name: &str) -> (r: Option<String>)
    ensures
        match r {
            Some(v) => last_value(rows@, namespace@, name@) == Some(v@),
            None => last_value(rows@, namespace@, name@) is None,
        },
{
    let mut found: Option<String> = None;
    let mut i: usize = 0;
    while i < rows.len()
        invariant
            i <= rows@.len(),
            match found {
                Some(v) => last_value(rows@.take(i as int), namespace@, name@) == Some(v@),
                None => last_value(rows@.take(i as int), namespace@, name@) is None,
            },
        decreases rows@.len() - i,
    {
        let row = &rows[i];
        assert(rows@.take(i + 1).drop_last() =~= rows@.take(i as int));
        assert(rows@.take(i + 1).last() == rows@[i as int]);
        if same_text(row.namespace.as_str(), namespace) && same_text(row.name.as_str(), name) {
            match &row.value {
                Some(v) => {
                    found = Some(v.clone());
                },
                None => {},
            }
        }
        i = i + 1;
    }
    assert(rows@.take(rows@.len() as int) =~= rows@);
    found
}

/// The non-volatile settings held by the rows: `URL` in the `WAS`
/// namespace, `PSK` and `SSID` in the `WIFI` namespace. Other rows are
/// ignored.
pub fn nvs_from_rows(rows: &Vec<ConfigRow>) -> (r: Result<WillowNvsConfig, NvsError>)
    ensures
        match (
            last_value(rows@, "WAS"@, "URL"@),
            last_value(rows@, "WIFI"@, "PSK"@),
            last_value(rows@, "WIFI"@, "SSID"@),
        ) {
            (None, _, _) => r == Err::<WillowNvsConfig, NvsError>(NvsError::MissingWasUrl),
            (Some(_), None, _) => r == Err::<WillowNvsConfig, NvsError>(NvsError::MissingWifiPsk),
            (Some(_), Some(_), None) => r == Err::<WillowNvsConfig, NvsError>(NvsError::MissingWifiSsid),
            (Some(url), Some(psk), Some(ssid)) => r matches Ok(c) && c.was.url@ == url && c.wifi.psk@ == psk
                && c.wifi.ssid@ == ssid,
        },
{
    let url = match find_last(rows, "WAS", "URL") {
        Some(v) => v,
        None => {
            return Err(NvsError::MissingWasUrl);
        },
    };
    let psk = match find_last(rows, "WIFI", "PSK") {
        Some(v) => v,
        None => {
            return Err(NvsError::MissingWifiPsk);
        },
    };
    let ssid = match find_last(rows, "WIFI", "SSID") {
        Some(v) => v,
        None => {
            return Err(NvsError::MissingWifiSsid);
        },
    };
    Ok(WillowNvsConfig { was: WillowNvsWas { url }, wifi: WillowNvsWifi { psk, ssid } })
}

/// The value of the last row with this name that has a value, whatever its
/// namespace.
pub open spec fn last_named(rows: Seq<ConfigRow>, name: Seq<char>) -> Option<Seq<char>>
    decreases rows.len(),
{
    if rows.len() == 0 {
        None
    } else {
        let (_, n, v) = row_view(rows.last());
        if n == name && v is Some {
            v
        } else {
            last_named(rows.drop_last(), name)
        }
    }
}

/// Where the setting `name` stands among `entries`.
fn position_of(entries: &Vec<(String, String)>, name: &str) -> (r: Option<usize>)
    ensures
        match r {
            Some(j) => j < entries@.len() && entries@[j as int].0@ == name@,
            None => forall|k: int| 0 <= k < entries@.len() ==> (#[trigger] entries@[k]).0@ != name@,
        },
{
    let mut j: usize = 0;
    while j < entries.len()
        invariant
            j <= entries@.len(),
            forall|k: int| 0 <= k < j ==> (#[trigger] entries@[k]).0@ != name@,
        decreases entries@.len() - j,
    {
        if same_text(entries[j].0.as_str(), name) {
            return Some(j);
        }
        j = j + 1;
    }
    None
}

/// The device configuration settings that the rows hold: each name once,
/// with the value of its last row that has one.
pub fn config_entries(rows: &Vec<ConfigRow>) -> (r: Vec<(String, String)>)
    ensures
        forall|i: int, j: int| 0 <= i < j < r@.len() ==> (#[trigger] r@[i]).0@ != (#[trigger] r@[j]).0@,
        forall|k: int| 0 <= k < r@.len() ==> last_named(rows@, (#[trigger] r@[k]).0@) == Some(r@[k].1@),
        forall|name: Seq<char>| #[trigger] last_named(rows@, name) is Some ==> exists|k: int|
            0 <= k < r@.len() && r@[k].0@ == name,
{
    let mut out: Vec<(String, String)> = Vec::new();
    let mut i: usize = 0;
    while i < rows.len()
        invariant
            i <= rows@.len(),
            forall|a: int, b: int| 0 <= a < b < out@.len() ==> (#[trigger] out@[a]).0@ != (#[trigger] out@[b]).0@,
            forall|k: int| 0 <= k < out@.len() ==> last_named(rows@.take(i as int), (#[trigger] out@[k]).0@)
                == Some(out@[k].1@),
            forall|name: Seq<char>| #[trigger] last_named(rows@.take(i as int), name) is Some ==> exists|k: int|
                0 <= k < out@.len() && out@[k].0@ == name,
        decreases rows@.len() - i,
    {
        let ghost before = rows@.take(i as int);
        let ghost after = rows@.take(i + 1);
        assert(after.drop_last() =~= before);
        assert(after.last() == rows@[i as int]);
        let row = &rows[i];
        match &row.value {
            None => {
                assert forall|name: Seq<char>| last_named(after, name) == last_named(before, name) by {}
            },
            Some(v) => {
                let ghost n = row.name@;
                assert forall|name: Seq<char>| name != n implies last_named(after, name) == last_named(before, name) by {}
                assert(last_named(after, n) == Some(v@));
                let ghost out0 = out@;
                match position_of(&out, row.name.as_str()) {
                    Some(j) => {
                        out.set(j, (row.name.clone(), v.clone()));
                        assert forall|k: int| 0 <= k < out@.len() implies last_named(after, (#[trigger] out@[k]).0@)
                            == Some(out@[k].1@) by {
                            if k != j {
                                assert(out@[k] == out0[k]);
                                assert(out0[k].0@ != n) by {
                                    if k < j {
                                        assert(out0[k].0@ != out0[j as int].0@);
                                    } else {
                                        assert(out0[j as int].0@ != out0[k].0@);
                                    }
                                }
                            }
                        }
                        assert forall|a: int, b: int| 0 <= a < b < out@.len() implies (#[trigger] out@[a]).0@
                            != (#[trigger] out@[b]).0@ by {
                            assert(out0[a].0@ != out0[b].0@);
                        }
                        assert forall|name: Seq<char>| #[trigger] last_named(after, name) is Some implies exists|k: int|
                            0 <= k < out@.len() && out@[k].0@ == name by {
                            if name == n {
                                assert(out@[j as int].0@ == name);
                            } else {
                                assert(last_named(before, name) is Some);
                                let k = choose|k: int| 0 <= k < out0.len() && out0[k].0@ == name;
                                assert(out@[k].0@ == name);
                            }
                        }
                    },
                    None => {
                        out.push((row.name.clone(), v.clone()));
                        assert forall|k: int| 0 <= k < out@.len() implies last_named(after, (#[trigger] out@[k]).0@)
                            == Some(out@[k].1@) by {
                            if k < out0.len() {
                                assert(out@[k] == out0[k]);
                                assert(out0[k].0@ != n);
                            }
                        }
                        assert forall|a: int, b: int| 0 <= a < b < out@.len() implies (#[trigger] out@[a]).0@
                            != (#[trigger] out@[b]).0@ by {
                            if b < out0.len() {
                                assert(out0[a].0@ != out0[b].0@);
                            } else {
                                assert(out@[a] == out0[a]);
                                assert(out0[a].0@ != n);
                            }
                        }
                        assert forall|name: Seq<char>| #[trigger] last_named(after, name) is Some implies exists|k: int|
                            0 <= k < out@.len() && out@[k].0@ == name by {
                            if name == n {
                                assert(out@[out0.len() as int].0@ == name);
                            } else {
                                assert(last_named(before, name) is Some);
                                let k = choose|k: int| 0 <= k < out0.len() && out0[k].0@ == name;
                                assert(out@[k].0@ == name);
                            }
                        }
                    },
                }
            },
        }
        i = i + 1;
    }
    assert(rows@.take(rows@.len() as int) =~= rows@);
    out
}

} // verus!
