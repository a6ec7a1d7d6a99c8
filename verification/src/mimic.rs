//! Impersonation profiles ("mimics"): a per-user set of named identities,
//! an optional active identity, per-channel overrides, and an auto mode
//! that relays every message as the active identity.

use vstd::prelude::*;
use crate::text::{fold_name, is_prefix, deep_strings, names_equal_fold, str_eq, str_starts_with};

verus! {

/// Profile failures surfaced to the caller of the profile view.
#[derive(Debug, PartialEq, Eq)]
pub enum MimicError {
    /// A read found no record for the user.
    NoUserFound,
    /// No channel override applies and no active mimic is set.
    NoActiveMimic,
    /// The auto-mode relay was consulted while auto mode is off.
    AutoModeFalse,
    /// No override is set for the channel in question.
    NoChannelOverride,
    /// A lookup by name found no mimic of that name.
    MimicNotFound,
    /// The active mimic cannot be unset while auto mode is on.
    DeleteActiveMimicWithAutoModeEnabled,
}

/// A named impersonation identity with an optional avatar reference.
#[derive(Debug)]
pub struct Mimic {
    pub name: String,
    pub avatar_url: Option<String>,
}

/// Mathematical model of a [`Mimic`].
#[verifier::ext_equal]
pub struct MimicV {
    pub name: Seq<char>,
    pub avatar_url: Option<Seq<char>>,
}

impl View for Mimic {
    type V = MimicV;

    open spec fn view(&self) -> MimicV {
        MimicV {
            name: self.name@,
            avatar_url: match self.avatar_url {
                Some(u) => Some(u@),
                None => None,
            },
        }
    }
}

impl Clone for Mimic {
    fn clone(&self) -> (r: Self)
        ensures
            r == *self,
    {
        let avatar_url = match &self.avatar_url {
            Some(u) => Some(u.clone()),
            None => None,
        };
        Mimic { name: self.name.clone(), avatar_url }
    }
}

/// One per-channel binding that forces a specific mimic in that channel.
#[derive(Debug)]
pub struct ChannelOverride {
    pub channel_id: u64,
    pub mimic: Mimic,
}

/// Mathematical model of a [`ChannelOverride`].
#[verifier::ext_equal]
pub struct ChannelOverrideV {
    pub channel_id: u64,
    pub mimic: MimicV,
}

impl View for ChannelOverride {
    type V = ChannelOverrideV;

    open spec fn view(&self) -> ChannelOverrideV {
        ChannelOverrideV { channel_id: self.channel_id, mimic: self.mimic@ }
    }
}

impl Clone for ChannelOverride {
    fn clone(&self) -> (r: Self)
        ensures
            r == *self,
    {
        ChannelOverride { channel_id: self.channel_id, mimic: self.mimic.clone() }
    }
}

/// Whether the user asked to switch auto mode on or off.
#[derive(Debug, PartialEq, Eq)]
pub enum AutoChoice {
    Enable,
    Disable,
}

impl AutoChoice {
    /// The boolean the choice stands for.
    pub fn enabled(&self) -> (r: bool)
        ensures
            r == (*self == AutoChoice::Enable),
    {
        match self {
            AutoChoice::Enable => true,
            AutoChoice::Disable => false,
        }
    }
}

/// The models behind a sequence of mimics.
pub open spec fn deep_mimics(s: Seq<Mimic>) -> Seq<MimicV> {
    s.map_values(|m: Mimic| m@)
}

/// The models behind a sequence of channel overrides.
pub open spec fn deep_overrides(s: Seq<ChannelOverride>) -> Seq<ChannelOverrideV> {
    s.map_values(|o: ChannelOverride| o@)
}

/// The profile part of a user record.
#[derive(Debug)]
pub struct MimicUser {
    pub active_mimic: Option<Mimic>,
    pub mimics: Vec<Mimic>,
    pub auto_mode: bool,
    pub channel_override: Vec<ChannelOverride>,
}

/// Mathematical model of a [`MimicUser`].
#[verifier::ext_equal]
pub struct MimicUserView {
    pub active_mimic: Option<MimicV>,
    pub mimics: Seq<MimicV>,
    pub auto_mode: bool,
    pub overrides: Seq<ChannelOverrideV>,
}

impl View for MimicUser {
    type V = MimicUserView;

    open spec fn view(&self) -> MimicUserView {
        MimicUserView {
            active_mimic: match self.active_mimic {
                Some(m) => Some(m@),
                None => None,
            },
            mimics: deep_mimics(self.mimics@),
            auto_mode: self.auto_mode,
            overrides: deep_overrides(self.channel_override@),
        }
    }
}

/// The model of an empty profile part.
pub open spec fn default_mimic_user() -> MimicUserView {
    MimicUserView {
        active_mimic: None,
        mimics: Seq::empty(),
        auto_mode: false,
        overrides: Seq::empty(),
    }
}

/// Whether some mimic in `s` carries exactly the name `name`.
pub open spec fn has_name(s: Seq<MimicV>, name: Seq<char>) -> bool {
    exists|i: int| 0 <= i < s.len() && s[i].name == name
}

/// The index of the mimic named exactly `name`; meaningful only under
/// [`has_name`] and a fold-unique set, where that index is unique.
pub open spec fn name_index(s: Seq<MimicV>, name: Seq<char>) -> int {
    choose|i: int| 0 <= i < s.len() && s[i].name == name
}

/// Whether some mimic in `s` has a name that folds to `f`.
pub open spec fn has_folded(s: Seq<MimicV>, f: Seq<u32>) -> bool {
    exists|i: int| 0 <= i < s.len() && fold_name(s[i].name) == f
}

/// The index of the mimic whose name folds to `f`; unique under
/// [`names_fold_unique`].
pub open spec fn folded_index(s: Seq<MimicV>, f: Seq<u32>) -> int {
    choose|i: int| 0 <= i < s.len() && fold_name(s[i].name) == f
}

/// No two mimics share a name up to ASCII case.
pub open spec fn names_fold_unique(s: Seq<MimicV>) -> bool {
    forall|i: int, j: int|
        0 <= i < j < s.len() ==> fold_name(s[i].name) != fold_name(s[j].name)
}

/// Whether some override in `s` binds `channel`.
pub open spec fn has_channel(s: Seq<ChannelOverrideV>, channel: u64) -> bool {
    exists|i: int| 0 <= i < s.len() && s[i].channel_id == channel
}

/// The index of the override binding `channel`; unique under
/// [`channels_unique`].
pub open spec fn channel_index(s: Seq<ChannelOverrideV>, channel: u64) -> int {
    choose|i: int| 0 <= i < s.len() && s[i].channel_id == channel
}

/// No two overrides bind the same channel.
pub open spec fn channels_unique(s: Seq<ChannelOverrideV>) -> bool {
    forall|i: int, j: int|
        0 <= i < j < s.len() ==> s[i].channel_id != s[j].channel_id
}

/// Well-formedness of the profile part: names are unique up to case, the
/// active mimic (if any) is still a member of the set, and no channel is
/// bound twice.
pub open spec fn mimic_user_wf(v: MimicUserView) -> bool {
    &&& names_fold_unique(v.mimics)
    &&& (v.active_mimic matches Some(m) ==> v.mimics.contains(m))
    &&& channels_unique(v.overrides)
}

/// The mimic that `resolve_effective` yields for `channel`: the channel's
/// override if one is bound, else the active mimic, else nothing.
pub open spec fn spec_resolve_effective(v: MimicUserView, channel: u64) -> Option<MimicV> {
    if has_channel(v.overrides, channel) {
        Some(v.overrides[channel_index(v.overrides, channel)].mimic)
    } else {
        v.active_mimic
    }
}

/// The names of the mimics in `s` whose names start with `p`, in order.
pub open spec fn spec_matching_names(s: Seq<MimicV>, p: Seq<char>) -> Seq<Seq<char>>
    decreases s.len(),
{
    if s.len() == 0 {
        Seq::empty()
    } else {
        let rest = spec_matching_names(s.drop_last(), p);
        if is_prefix(p, s.last().name) {
            rest.push(s.last().name)
        } else {
            rest
        }
    }
}

/// The profile part after `add_mimic(m)`: `m` replaces the mimic sharing
/// its folded name if one exists, otherwise it is appended; either way `m`
/// becomes the active mimic.
pub open spec fn add_mimic_effect(v: MimicUserView, m: MimicV) -> MimicUserView {
    let f = fold_name(m.name);
    let mimics = if has_folded(v.mimics, f) {
        v.mimics.update(folded_index(v.mimics, f), m)
    } else {
        v.mimics.push(m)
    };
    MimicUserView {
        active_mimic: Some(m),
        mimics,
        auto_mode: v.auto_mode,
        overrides: v.overrides,
    }
}

/// The profile part after `set_active(name)`: the named mimic becomes
/// active; nothing changes when no mimic carries the name.
pub open spec fn set_active_effect(v: MimicUserView, name: Seq<char>) -> MimicUserView {
    if has_name(v.mimics, name) {
        MimicUserView {
            active_mimic: Some(v.mimics[name_index(v.mimics, name)]),
            mimics: v.mimics,
            auto_mode: v.auto_mode,
            overrides: v.overrides,
        }
    } else {
        v
    }
}

/// The profile part after `set_channel_override(channel, name)`: the named
/// mimic is bound to the channel, replacing any previous binding; nothing
/// changes when no mimic carries the name.
pub open spec fn set_channel_override_effect(
    v: MimicUserView,
    channel: u64,
    name: Seq<char>,
) -> MimicUserView {
    if has_name(v.mimics, name) {
        let ov = ChannelOverrideV { channel_id: channel, mimic: v.mimics[name_index(v.mimics, name)] };
        let overrides = if has_channel(v.overrides, channel) {
            v.overrides.update(channel_index(v.overrides, channel), ov)
        } else {
            v.overrides.push(ov)
        };
        MimicUserView {
            active_mimic: v.active_mimic,
            mimics: v.mimics,
            auto_mode: v.auto_mode,
            overrides,
        }
    } else {
        v
    }
}

/// The profile part after `set_auto_mode(enable)`: auto mode follows the
/// choice while an active mimic is set; nothing changes otherwise.
pub open spec fn set_auto_mode_effect(v: MimicUserView, enable: bool) -> MimicUserView {
    if v.active_mimic is Some {
        MimicUserView {
            active_mimic: v.active_mimic,
            mimics: v.mimics,
            auto_mode: enable,
            overrides: v.overrides,
        }
    } else {
        v
    }
}

/// The profile part after `delete_mimic(name)`: the named mimic leaves the
/// set, and the active reference is cleared when it pointed at that name;
/// nothing changes when no mimic carries the name.
pub open spec fn delete_mimic_effect(v: MimicUserView, name: Seq<char>) -> MimicUserView {
    if has_name(v.mimics, name) {
        MimicUserView {
            active_mimic: if v.active_mimic matches Some(a) && a.name == name {
                None
            } else {
                v.active_mimic
            },
            mimics: v.mimics.remove(name_index(v.mimics, name)),
            auto_mode: v.auto_mode,
            overrides: v.overrides,
        }
    } else {
        v
    }
}

/// The profile part after `delete_channel_override(channel)`: the channel's
/// binding leaves; nothing changes when the channel is not bound.
pub open spec fn delete_channel_override_effect(v: MimicUserView, channel: u64) -> MimicUserView {
    if has_channel(v.overrides, channel) {
        MimicUserView {
            active_mimic: v.active_mimic,
            mimics: v.mimics,
            auto_mode: v.auto_mode,
            overrides: v.overrides.remove(channel_index(v.overrides, channel)),
        }
    } else {
        v
    }
}

/// The profile part after `delete_active()`: the active reference is taken
/// away; nothing changes while auto mode forbids it or nothing is active.
pub open spec fn delete_active_effect(v: MimicUserView) -> MimicUserView {
    if !v.auto_mode && v.active_mimic is Some {
        MimicUserView {
            active_mimic: None,
            mimics: v.mimics,
            auto_mode: v.auto_mode,
            overrides: v.overrides,
        }
    } else {
        v
    }
}

/// The profile part after `force_auto_off()`: auto mode is switched off.
pub open spec fn force_auto_off_effect(v: MimicUserView) -> MimicUserView {
    MimicUserView {
        active_mimic: v.active_mimic,
        mimics: v.mimics,
        auto_mode: false,
        overrides: v.overrides,
    }
}

impl Clone for MimicUser {
    fn clone(&self) -> (r: Self)
        ensures
            r@ == self@,
    {
        let active_mimic = match &self.active_mimic {
            Some(m) => Some(m.clone()),
            None => None,
        };
        let mimics = self.mimics.clone();
        let channel_override = self.channel_override.clone();
        proof {
            assert(mimics@ =~= self.mimics@) by {
                assert forall|i: int| 0 <= i < mimics@.len() implies mimics@[i] == self.mimics@[i] by {
                    assert(cloned::<Mimic>(self.mimics@[i], mimics@[i]));
                }
            }
            assert(channel_override@ =~= self.channel_override@) by {
                assert forall|i: int| 0 <= i < channel_override@.len() implies channel_override@[i]
                    == self.channel_override@[i] by {
                    assert(cloned::<ChannelOverride>(self.channel_override@[i], channel_override@[i]));
                }
            }
        }
        MimicUser { active_mimic, mimics, auto_mode: self.auto_mode, channel_override }
    }
}

/// Find the index of the mimic named exactly `name`, scanning in order;
/// under fold-uniqueness that index is the one `name_index` denotes.
fn find_by_name(mimics: &Vec<Mimic>, name: &str) -> (r: Option<usize>)
    requires
        names_fold_unique(deep_mimics(mimics@)),
    ensures
        r matches Some(i) ==> i < mimics@.len() && deep_mimics(mimics@)[i as int].name == name@
            && has_name(deep_mimics(mimics@), name@)
            && i as int == name_index(deep_mimics(mimics@), name@),
        r is None ==> !has_name(deep_mimics(mimics@), name@),
{
    let ghost s = deep_mimics(mimics@);
    let n = mimics.len();
    let mut i: usize = 0;
    while i < n
        invariant
            s == deep_mimics(mimics@),
            n == mimics@.len(),
            0 <= i <= n,
            names_fold_unique(s),
            forall|k: int| 0 <= k < i ==> s[k].name != name@,
        decreases n - i,
    {
        if str_eq(mimics[i].name.as_str(), name) {
            proof {
                assert(s[i as int].name == name@);
                assert(has_name(s, name@));
                let c = name_index(s, name@);
                assert(0 <= c < s.len() && s[c].name == name@);
                assert(c == i as int) by {
                    if c != i as int {
                        assert(fold_name(s[c].name) == fold_name(s[i as int].name));
                    }
                }
            }
            return Some(i);
        }
        i = i + 1;
    }
    None
}

/// Find the index of the override bound to `channel_id`; under
/// channel-uniqueness that index is the one `channel_index` denotes.
fn find_channel(overrides: &Vec<ChannelOverride>, channel_id: u64) -> (r: Option<usize>)
    requires
        channels_unique(deep_overrides(overrides@)),
    ensures
        r matches Some(i) ==> i < overrides@.len()
            && deep_overrides(overrides@)[i as int].channel_id == channel_id
            && has_channel(deep_overrides(overrides@), channel_id)
            && i as int == channel_index(deep_overrides(overrides@), channel_id),
        r is None ==> !has_channel(deep_overrides(overrides@), channel_id),
{
    let ghost s = deep_overrides(overrides@);
    let n = overrides.len();
    let mut i: usize = 0;
    while i < n
        invariant
            s == deep_overrides(overrides@),
            n == overrides@.len(),
            0 <= i <= n,
            channels_unique(s),
            forall|k: int| 0 <= k < i ==> s[k].channel_id != channel_id,
        decreases n - i,
    {
        if overrides[i].channel_id == channel_id {
            proof {
                assert(s[i as int].channel_id == channel_id);
                assert(has_channel(s, channel_id));
                let c = channel_index(s, channel_id);
                assert(0 <= c < s.len() && s[c].channel_id == channel_id);
            }
            return Some(i);
        }
        i = i + 1;
    }
    None
}

impl MimicUser {
    /// Well-formedness of this profile part.
    pub open spec fn wf(self) -> bool {
        mimic_user_wf(self@)
    }

    /// An empty profile part: no mimics, nothing active, auto mode off.
    pub fn new() -> (r: Self)
        ensures
            r.wf(),
            r@ == default_mimic_user(),
    {
        let r = MimicUser {
            active_mimic: None,
            mimics: Vec::new(),
            auto_mode: false,
            channel_override: Vec::new(),
        };
        proof {
            assert(r@ =~= default_mimic_user());
        }
        r
    }

    /// Insert the mimic `m` and make it the active one. A mimic whose name
    /// matches up to ASCII case is replaced in place, keeping names unique.
    pub fn add_mimic(&mut self, m: Mimic) -> (r: String)
        requires
            old(self).wf(),
        ensures
            final(self).wf(),
            final(self)@ == add_mimic_effect(old(self)@, m@),
            r@ == m@.name,
    {
        let name = m.name.clone();
        let ghost s = deep_mimics(self.mimics@);
        let ghost f = fold_name(m@.name);
        let n = self.mimics.len();
        let mut i: usize = 0;
        let mut found: Option<usize> = None;
        while i < n
            invariant
                s == deep_mimics(self.mimics@),
                n == self.mimics@.len(),
                0 <= i <= n,
                f == fold_name(m@.name),
                found matches Some(k) ==> k < n && fold_name(s[k as int].name) == f,
                found is None ==> forall|k: int| 0 <= k < i ==> fold_name(s[k].name) != f,
                found is Some ==> i == n,
            decreases n - i,
        {
            if names_equal_fold(self.mimics[i].name.as_str(), m.name.as_str()) {
                found = Some(i);
                i = n;
            } else {
                i = i + 1;
            }
        }
        let active = m.clone();
        match found {
            Some(k) => {
                proof {
                    assert(has_folded(s, f));
                    let c = folded_index(s, f);
                    assert(fold_name(s[c].name) == f);
                    assert(c == k as int) by {
                        if c != k as int {
                            assert(names_fold_unique(s));
                        }
                    }
                }
                self.mimics.set(k, m);
                self.active_mimic = Some(active);
                proof {
                    assert(self@.mimics =~= s.update(k as int, self@.mimics[k as int]));
                    assert(self@ =~= add_mimic_effect(old(self)@, self@.mimics[k as int]));
                    assert(self.wf()) by {
                        assert(self@.mimics.contains(self@.mimics[k as int]));
                    }
                }
            },
            None => {
                self.mimics.push(m);
                self.active_mimic = Some(active);
                proof {
                    assert(!has_folded(s, f));
                    assert(self@.mimics =~= s.push(self@.mimics.last()));
                    assert(self@ =~= add_mimic_effect(old(self)@, self@.mimics.last()));
                    assert(self.wf()) by {
                        let fs = self@.mimics;
                        assert(fs.contains(fs[fs.len() - 1]));
                    }
                }
            },
        }
        name
    }

    /// The mimic to speak as in `channel_id`: the channel override when one
    /// is bound, else the active mimic; fails when neither is set.
    pub fn get_active_mimic(&self, channel_id: u64) -> (r: Result<Mimic, MimicError>)
        requires
            self.wf(),
        ensures
            (r is Ok) == (spec_resolve_effective(self@, channel_id) is Some),
            r matches Ok(m) ==> Some(m@) == spec_resolve_effective(self@, channel_id),
            r matches Err(e) ==> e == MimicError::NoActiveMimic,
    {
        match find_channel(&self.channel_override, channel_id) {
            Some(i) => Ok(self.channel_override[i].mimic.clone()),
            None => match &self.active_mimic {
                Some(m) => Ok(m.clone()),
                None => Err(MimicError::NoActiveMimic),
            },
        }
    }

    /// Make the mimic named exactly `name` the active one; fails when no
    /// mimic carries that name.
    pub fn set_active(&mut self, name: &str) -> (r: Result<String, MimicError>)
        requires
            old(self).wf(),
        ensures
            final(self).wf(),
            final(self)@ == set_active_effect(old(self)@, name@),
            r is Ok <==> has_name(old(self)@.mimics, name@),
            r matches Ok(s) ==> s@ == name@,
            r matches Err(e) ==> e == MimicError::MimicNotFound,
    {
        match find_by_name(&self.mimics, name) {
            Some(i) => {
                let m = self.mimics[i].clone();
                let out = m.name.clone();
                self.active_mimic = Some(m);
                proof {
                    assert(self@ =~= set_active_effect(old(self)@, name@));
                    assert(self@.mimics.contains(self@.mimics[i as int]));
                }
                Ok(out)
            },
            None => Err(MimicError::MimicNotFound),
        }
    }

    /// Bind the mimic named exactly `name` to `channel_id`, replacing any
    /// previous binding of that channel; fails when no mimic carries the
    /// name.
    pub fn set_channel_override(&mut self, channel_id: u64, name: &str) -> (r: Result<
        String,
        MimicError,
    >)
        requires
            old(self).wf(),
        ensures
            final(self).wf(),
            final(self)@ == set_channel_override_effect(old(self)@, channel_id, name@),
            r is Ok <==> has_name(old(self)@.mimics, name@),
            r matches Ok(s) ==> s@ == name@,
            r matches Err(e) ==> e == MimicError::MimicNotFound,
    {
        match find_by_name(&self.mimics, name) {
            Some(i) => {
                let m = self.mimics[i].clone();
                let out = m.name.clone();
                let ov = ChannelOverride { channel_id, mimic: m };
                let ghost ovs = deep_overrides(old(self).channel_override@);
                match find_channel(&self.channel_override, channel_id) {
                    Some(j) => {
                        self.channel_override.set(j, ov);
                        proof {
                            assert(self@.overrides =~= ovs.update(
                                channel_index(ovs, channel_id),
                                self@.overrides[j as int],
                            ));
                        }
                    },
                    None => {
                        self.channel_override.push(ov);
                        proof {
                            assert(self@.overrides =~= ovs.push(self@.overrides.last()));
                        }
                    },
                }
                proof {
                    assert(self@ =~= set_channel_override_effect(old(self)@, channel_id, name@));
                    assert(channels_unique(self@.overrides));
                }
                Ok(out)
            },
            None => Err(MimicError::MimicNotFound),
        }
    }

    /// Switch auto mode on or off; fails when no active mimic is set.
    pub fn set_auto_mode(&mut self, enable: bool) -> (r: Result<bool, MimicError>)
        requires
            old(self).wf(),
        ensures
            final(self).wf(),
            final(self)@ == set_auto_mode_effect(old(self)@, enable),
            r is Ok <==> old(self)@.active_mimic is Some,
            r matches Ok(b) ==> b == enable,
            r matches Err(e) ==> e == MimicError::NoActiveMimic,
    {
        if self.active_mimic.is_some() {
            self.auto_mode = enable;
            Ok(enable)
        } else {
            Err(MimicError::NoActiveMimic)
        }
    }

    /// Remove the mimic named exactly `name`; when it was the active one,
    /// the active reference is cleared. Fails when no mimic carries the
    /// name.
    pub fn delete_mimic(&mut self, name: &str) -> (r: Result<String, MimicError>)
        requires
            old(self).wf(),
        ensures
            final(self).wf(),
            final(self)@ == delete_mimic_effect(old(self)@, name@),
            r is Ok <==> has_name(old(self)@.mimics, name@),
            r matches Ok(s) ==> s@ == name@,
            r matches Err(e) ==> e == MimicError::MimicNotFound,
    {
        match find_by_name(&self.mimics, name) {
            Some(i) => {
                let ghost s = deep_mimics(old(self).mimics@);
                let removed = self.mimics.remove(i);
                let clear = match &self.active_mimic {
                    Some(a) => str_eq(a.name.as_str(), name),
                    None => false,
                };
                if clear {
                    self.active_mimic = None;
                }
                proof {
                    assert(self@.mimics =~= s.remove(i as int));
                    assert(self@ =~= delete_mimic_effect(old(self)@, name@));
                    assert(names_fold_unique(self@.mimics)) by {
                        assert forall|p: int, q: int| 0 <= p < q < self@.mimics.len() implies
                            fold_name(self@.mimics[p].name) != fold_name(self@.mimics[q].name) by {
                            let op = if p < i as int { p } else { p + 1 };
                            let oq = if q < i as int { q } else { q + 1 };
                            assert(self@.mimics[p] == s[op]);
                            assert(self@.mimics[q] == s[oq]);
                        }
                    }
                    match self@.active_mimic {
                        Some(a) => {
                            assert(s.contains(a));
                            let j = choose|j: int| 0 <= j < s.len() && s[j] == a;
                            assert(self@.mimics.contains(a)) by {
                                if j < i as int {
                                    assert(self@.mimics[j] == a);
                                } else {
                                    assert(self@.mimics[j - 1] == a);
                                }
                            }
                        },
                        None => {},
                    }
                }
                Ok(removed.name)
            },
            None => Err(MimicError::MimicNotFound),
        }
    }

    /// Remove the override bound to `channel_id`; fails when the channel is
    /// not bound.
    pub fn delete_channel_override(&mut self, channel_id: u64) -> (r: Result<String, MimicError>)
        requires
            old(self).wf(),
        ensures
            final(self).wf(),
            final(self)@ == delete_channel_override_effect(old(self)@, channel_id),
            r is Ok <==> has_channel(old(self)@.overrides, channel_id),
            r matches Ok(s) ==> s@ == old(self)@.overrides[channel_index(
                old(self)@.overrides,
                channel_id,
            )].mimic.name,
            r matches Err(e) ==> e == MimicError::NoChannelOverride,
    {
        match find_channel(&self.channel_override, channel_id) {
            Some(i) => {
                let ghost s = deep_overrides(old(self).channel_override@);
                let removed = self.channel_override.remove(i);
                proof {
                    assert(self@.overrides =~= s.remove(i as int));
                    assert(self@ =~= delete_channel_override_effect(old(self)@, channel_id));
                    assert(channels_unique(self@.overrides)) by {
                        assert forall|p: int, q: int| 0 <= p < q < self@.overrides.len() implies
                            self@.overrides[p].channel_id != self@.overrides[q].channel_id by {
                            let op = if p < i as int { p } else { p + 1 };
                            let oq = if q < i as int { q } else { q + 1 };
                            assert(self@.overrides[p] == s[op]);
                            assert(self@.overrides[q] == s[oq]);
                        }
                    }
                }
                Ok(removed.mimic.name)
            },
            None => Err(MimicError::NoChannelOverride),
        }
    }

    /// Unset the active mimic; refused while auto mode is on, and fails
    /// when nothing is active.
    pub fn delete_active(&mut self) -> (r: Result<String, MimicError>)
        requires
            old(self).wf(),
        ensures
            final(self).wf(),
            final(self)@ == delete_active_effect(old(self)@),
            r is Ok <==> !old(self)@.auto_mode && old(self)@.active_mimic is Some,
            r matches Ok(s) ==> old(self)@.active_mimic matches Some(a) && s@ == a.name,
            r matches Err(e) ==> e == if old(self)@.auto_mode {
                MimicError::DeleteActiveMimicWithAutoModeEnabled
            } else {
                MimicError::NoActiveMimic
            },
    {
        if self.auto_mode {
            return Err(MimicError::DeleteActiveMimicWithAutoModeEnabled);
        }
        match self.active_mimic.take() {
            Some(m) => Ok(m.name),
            None => Err(MimicError::NoActiveMimic),
        }
    }

    /// Switch auto mode off unconditionally; used to reconcile a record
    /// whose auto mode is on while no active mimic can be resolved.
    pub fn force_auto_off(&mut self)
        requires
            old(self).wf(),
        ensures
            final(self).wf(),
            final(self)@ == force_auto_off_effect(old(self)@),
    {
        self.auto_mode = false;
    }

    /// The mimic the auto-mode relay should speak as in `channel_id`:
    /// refused while auto mode is off, otherwise resolved like
    /// `get_active_mimic`.
    pub fn auto_resolve(&self, channel_id: u64) -> (r: Result<Mimic, MimicError>)
        requires
            self.wf(),
        ensures
            !self@.auto_mode ==> r == Err::<Mimic, MimicError>(MimicError::AutoModeFalse),
            self@.auto_mode ==> {
                &&& (r is Ok) == (spec_resolve_effective(self@, channel_id) is Some)
                &&& (r matches Ok(m) ==> Some(m@) == spec_resolve_effective(self@, channel_id))
                &&& (r matches Err(e) ==> e == MimicError::NoActiveMimic)
            },
    {
        if !self.auto_mode {
            return Err(MimicError::AutoModeFalse);
        }
        self.get_active_mimic(channel_id)
    }

    /// Every mimic in order, each with a flag saying whether it is the
    /// active one.
    pub fn list_profiles(&self) -> (r: Vec<(Mimic, bool)>)
        ensures
            r@.len() == self@.mimics.len(),
            forall|i: int| 0 <= i < r@.len() ==> (#[trigger] r@[i]).0@ == self@.mimics[i]
                && (r@[i].1 == (self@.active_mimic matches Some(a)
                    && a.name == self@.mimics[i].name)),
    {
        let mut out: Vec<(Mimic, bool)> = Vec::new();
        let n = self.mimics.len();
        let mut i: usize = 0;
        while i < n
            invariant
                n == self@.mimics.len(),
                0 <= i <= n,
                out@.len() == i,
                forall|k: int| 0 <= k < i ==> (#[trigger] out@[k]).0@ == self@.mimics[k]
                    && (out@[k].1 == (self@.active_mimic matches Some(a)
                        && a.name == self@.mimics[k].name)),
            decreases n - i,
        {
            let m = self.mimics[i].clone();
            let flag = match &self.active_mimic {
                Some(a) => str_eq(a.name.as_str(), m.name.as_str()),
                None => false,
            };
            out.push((m, flag));
            i = i + 1;
        }
        out
    }

    /// The names of the mimics whose names start with `partial`, in order;
    /// serves name autocompletion.
    pub fn matching_names(&self, partial: &str) -> (r: Vec<String>)
        ensures
            deep_strings(r@) == spec_matching_names(self@.mimics, partial@),
    {
        let mut out: Vec<String> = Vec::new();
        let n = self.mimics.len();
        let mut i: usize = 0;
        while i < n
            invariant
                n == self@.mimics.len(),
                0 <= i <= n,
                deep_strings(out@) == spec_matching_names(self@.mimics.take(i as int), partial@),
            decreases n - i,
        {
            proof {
                assert(self@.mimics.take(i + 1).drop_last() =~= self@.mimics.take(i as int));
                assert(self@.mimics.take(i + 1).last() == self@.mimics[i as int]);
            }
            let ghost prev = out@;
            if str_starts_with(self.mimics[i].name.as_str(), partial) {
                out.push(self.mimics[i].name.clone());
                proof {
                    assert(deep_strings(out@) =~= deep_strings(prev).push(self@.mimics[i as int].name));
                }
            }
            i = i + 1;
        }
        proof {
            assert(self@.mimics.take(n as int) =~= self@.mimics);
        }
        out
    }
}

} // verus!
