//! Feature toggles: repeatable enable/disable flags turned into
//! configuration override lines, each validated against the set of
//! known feature keys, and the GUI-tool override line itself.

use vstd::prelude::*;
use vstd::string::*;
use crate::text::contains_str;

verus! {

/// The override line for one feature key.
pub open spec fn override_line(feature: Seq<char>, enabled: bool) -> Seq<char> {
    "features."@ + feature + (if enabled {
        "=true"@
    } else {
        "=false"@
    })
}

/// Whether every listed feature key is known.
pub open spec fn all_known(fs: Seq<Seq<char>>, known: Seq<Seq<char>>) -> bool {
    forall|j: int| 0 <= j < fs.len() ==> known.contains(#[trigger] fs[j])
}

/// The first listed feature key that is not known (the empty sequence
/// when every one is).
pub open spec fn first_unknown(fs: Seq<Seq<char>>, known: Seq<Seq<char>>) -> Seq<char>
    decreases fs.len(),
{
    if fs.len() == 0 {
        Seq::empty()
    } else if !known.contains(fs[0]) {
        fs[0]
    } else {
        first_unknown(fs.drop_first(), known)
    }
}

proof fn lemma_first_unknown_at(fs: Seq<Seq<char>>, known: Seq<Seq<char>>, i: int)
    requires
        0 <= i < fs.len(),
        forall|k: int| 0 <= k < i ==> known.contains(#[trigger] fs[k]),
        !known.contains(fs[i]),
    ensures
        first_unknown(fs, known) == fs[i],
    decreases i,
{
    if i == 0 {
    } else {
        lemma_first_unknown_at(fs.drop_first(), known, i - 1);
    }
}

/// The configuration line that switches the GUI tools on or off: on
/// exactly when the GUI was asked for and headless was not.
pub open spec fn spec_gui_override(gui: bool, headless: bool) -> Seq<char> {
    if gui && !headless {
        "features.computer_use_gui=true"@
    } else {
        "features.computer_use_gui=false"@
    }
}

/// Renders the GUI-tool override line.
pub fn gui_override(gui: bool, headless: bool) -> (r: String)
    ensures
        r@ == spec_gui_override(gui, headless),
{
    if gui && !headless {
        String::from_str("features.computer_use_gui=true")
    } else {
        String::from_str("features.computer_use_gui=false")
    }
}

fn render_line(feature: &str, enabled: bool) -> (r: String)
    ensures
        r@ == override_line(feature@, enabled),
{
    let mut line = String::from_str("features.");
    line.append(feature);
    if enabled {
        line.append("=true");
    } else {
        line.append("=false");
    }
    line
}

/// The repeatable enable/disable feature flags of one invocation.
#[derive(Debug, Default, Clone, PartialEq, Eq)]
pub struct FeatureToggles {
    pub enable: Vec<String>,
    pub disable: Vec<String>,
}

/// Checks one feature key against the known set; an unknown key is
/// reported in the error message.
pub fn validate_feature(feature: &str, known: &Vec<String>) -> (r: Result<(), String>)
    ensures
        r is Ok <==> known.deep_view().contains(feature@),
        r matches Err(m) ==> m@ == "Unknown feature flag: "@ + feature@,
{
    if contains_str(known, feature) {
        Ok(())
    } else {
        let mut m = String::from_str("Unknown feature flag: ");
        m.append(feature);
        Err(m)
    }
}

impl FeatureToggles {
    /// Turns the toggles into override lines: one `=true` line per
    /// enabled feature, then one `=false` line per disabled feature,
    /// each key checked against the known set.  The first unknown key
    /// (enabled ones scanned first) fails the whole conversion.
    pub fn to_overrides(&self, known: &Vec<String>) -> (r: Result<Vec<String>, String>)
        ensures
            r is Ok <==> all_known(
                self.enable.deep_view() + self.disable.deep_view(),
                known.deep_view(),
            ),
            r matches Ok(lines) ==> lines.deep_view() == self.enable.deep_view().map_values(
                |f: Seq<char>| override_line(f, true),
            ) + self.disable.deep_view().map_values(|f: Seq<char>| override_line(f, false)),
            r matches Err(m) ==> m@ == "Unknown feature flag: "@ + first_unknown(
                self.enable.deep_view() + self.disable.deep_view(),
                known.deep_view(),
            ),
    {
        let ghost combined = self.enable.deep_view() + self.disable.deep_view();
        let mut out: Vec<String> = Vec::new();
        let mut i: usize = 0;
        while i < self.enable.len()
            invariant
                i <= self.enable.len(),
                self.enable.deep_view().len() == self.enable.len(),
                combined == self.enable.deep_view() + self.disable.deep_view(),
                forall|k: int|
                    0 <= k < i ==> known.deep_view().contains(#[trigger] self.enable.deep_view()[k]),
                out@.len() == i,
                forall|k: int|
                    0 <= k < i ==> out.deep_view()[k] == override_line(
                        #[trigger] self.enable.deep_view()[k],
                        true,
                    ),
            decreases self.enable.len() - i,
        {
            match validate_feature(self.enable[i].as_str(), known) {
                Ok(_) => {},
                Err(m) => {
                    proof {
                        assert(self.enable.deep_view()[i as int] == self.enable@[i as int]@);
                        assert(forall|k: int|
                            0 <= k < i ==> combined[k] == self.enable.deep_view()[k]);
                        lemma_first_unknown_at(combined, known.deep_view(), i as int);
                    }
                    return Err(m);
                },
            }
            out.push(render_line(self.enable[i].as_str(), true));
            proof {
                assert(self.enable.deep_view()[i as int] == self.enable@[i as int]@);
            }
            i += 1;
        }
        let mut j: usize = 0;
        while j < self.disable.len()
            invariant
                j <= self.disable.len(),
                self.enable.deep_view().len() == self.enable.len(),
                self.disable.deep_view().len() == self.disable.len(),
                combined == self.enable.deep_view() + self.disable.deep_view(),
                forall|k: int|
                    0 <= k < self.enable.len() ==> known.deep_view().contains(
                        #[trigger] self.enable.deep_view()[k],
                    ),
                forall|k: int|
                    0 <= k < j ==> known.deep_view().contains(
                        #[trigger] self.disable.deep_view()[k],
                    ),
                out@.len() == self.enable.len() + j,
                forall|k: int|
                    0 <= k < self.enable.len() ==> out.deep_view()[k] == override_line(
                        #[trigger] self.enable.deep_view()[k],
                        true,
                    ),
                forall|k: int|
                    0 <= k < j ==> out.deep_view()[self.enable.len() + k] == override_line(
                        #[trigger] self.disable.deep_view()[k],
                        false,
                    ),
            decreases self.disable.len() - j,
        {
            match validate_feature(self.disable[j].as_str(), known) {
                Ok(_) => {},
                Err(m) => {
                    proof {
                        assert(self.disable.deep_view()[j as int] == self.disable@[j as int]@);
                        assert(forall|k: int|
                            0 <= k < self.enable.len() + j ==> known.deep_view().contains(
                                #[trigger] combined[k],
                            ));
                        assert(combined[self.enable.len() + j as int]
                            == self.disable.deep_view()[j as int]);
                        lemma_first_unknown_at(
                            combined,
                            known.deep_view(),
                            self.enable.len() + j as int,
                        );
                    }
                    return Err(m);
                },
            }
            out.push(render_line(self.disable[j].as_str(), false));
            proof {
                assert(self.disable.deep_view()[j as int] == self.disable@[j as int]@);
            }
            j += 1;
        }
        proof {
            assert(out.deep_view() =~= self.enable.deep_view().map_values(
                |f: Seq<char>| override_line(f, true),
            ) + self.disable.deep_view().map_values(|f: Seq<char>| override_line(f, false)));
        }
        Ok(out)
    }
}

} // verus!
