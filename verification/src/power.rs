//! System power profiles on Linux: which command-line tool provides them, which
//! profiles exist, which command sets one and how the current one is read.
//! The caller probes the tools and runs the commands that are chosen here.
use crate::text::{lowercase, to_lowercase, to_uppercase, trim, trimmed, uppercase, utf8_lossy, string_from_utf8_lossy};
use vstd::prelude::*;

verus! {

/// The tools that can switch power profiles.
#[derive(PartialEq, Eq, Clone, Copy, Debug, Structural)]
pub enum PowerPolicyProviderEnum {
    PowerProfileDaemon,
    TLPCTL,
}

/// The name under which a provider is offered to the user.
pub open spec fn provider_name(p: PowerPolicyProviderEnum) -> Seq<char> {
    match p {
        PowerPolicyProviderEnum::PowerProfileDaemon => "powerprofilesctl"@,
        PowerPolicyProviderEnum::TLPCTL => "tlpctl"@,
    }
}

/// The provider that a name stands for, if any.
pub open spec fn provider_from_name(name: Seq<char>) -> Option<PowerPolicyProviderEnum> {
    if name == "powerprofilesctl"@ {
        Some(PowerPolicyProviderEnum::PowerProfileDaemon)
    } else if name == "tlpctl"@ {
        Some(PowerPolicyProviderEnum::TLPCTL)
    } else {
        None
    }
}

/// The program that a provider runs (it is also its name).
pub open spec fn provider_program(p: PowerPolicyProviderEnum) -> Seq<char> {
    provider_name(p)
}

impl PowerPolicyProviderEnum {
    /// The provider's name.
    pub fn name(self) -> (res: String)
        ensures
            res@ == provider_name(self),
    {
        match self {
            PowerPolicyProviderEnum::PowerProfileDaemon => "powerprofilesctl".to_owned(),
            PowerPolicyProviderEnum::TLPCTL => "tlpctl".to_owned(),
        }
    }

    /// The provider with the given name, which must be one of the two.
    pub fn from_name(name: &String) -> (res: PowerPolicyProviderEnum)
        requires
            provider_from_name(name@) is Some,
        ensures
            Some(res) == provider_from_name(name@),
    {
        let ppd = "powerprofilesctl".to_owned();
        if *name == ppd {
            PowerPolicyProviderEnum::PowerProfileDaemon
        } else {
            PowerPolicyProviderEnum::TLPCTL
        }
    }

    /// Whether a provider has the given name.
    pub fn is_name(name: &String) -> (res: bool)
        ensures
            res == provider_from_name(name@) is Some,
    {
        let ppd = "powerprofilesctl".to_owned();
        let tlp = "tlpctl".to_owned();
        *name == ppd || *name == tlp
    }
}

/// Whether `s` is one of the profiles that the providers know, in lower case.
pub open spec fn is_profile(s: Seq<char>) -> bool {
    s == "power-saver"@ || s == "balanced"@ || s == "performance"@
}

/// The profiles that the providers know, in this order.
pub open spec fn profile_list() -> Seq<Seq<char>> {
    seq!["power-saver"@, "balanced"@, "performance"@]
}

/// The profiles that the providers know.
pub fn known_profiles() -> (res: Vec<String>)
    ensures
        res@.len() == 3,
        forall|i: int| 0 <= i < 3 ==> (#[trigger] res@[i])@ == profile_list()[i],
{
    let mut v: Vec<String> = Vec::new();
    v.push("power-saver".to_owned());
    v.push("balanced".to_owned());
    v.push("performance".to_owned());
    v
}

/// A command to run: a program and its arguments.
#[derive(Clone, Debug)]
pub struct PowerCommand {
    pub program: String,
    pub args: Vec<String>,
}

/// `c` runs the provider's program with `set` and the given profile.
pub open spec fn is_set_command(c: PowerCommand, p: PowerPolicyProviderEnum, profile: Seq<char>) -> bool {
    &&& c.program@ == provider_program(p)
    &&& c.args@.len() == 2
    &&& c.args@[0]@ == "set"@
    &&& c.args@[1]@ == profile
}

/// `c` runs the provider's program with `get`.
pub open spec fn is_get_command(c: PowerCommand, p: PowerPolicyProviderEnum) -> bool {
    &&& c.program@ == provider_program(p)
    &&& c.args@.len() == 1
    &&& c.args@[0]@ == "get"@
}

/// The profile that a provider reports, read from the standard output of its
/// `get` command: the text, upper-cased, without surrounding white space.
pub open spec fn reported_profile(stdout: Seq<u8>) -> Seq<char> {
    trimmed(uppercase(utf8_lossy(stdout)))
}

/// A tool that switches power profiles.
pub trait PowerPolicyProvider {
    /// Which provider this is.
    spec fn kind(&self) -> PowerPolicyProviderEnum;

    fn which(&self) -> (res: PowerPolicyProviderEnum)
        ensures
            res == self.kind(),
    ;

    /// The command that tells whether the tool is installed: it is, when the
    /// program can be started.
    fn availability_command(&self) -> (res: PowerCommand)
        ensures
            res.program@ == provider_program(self.kind()),
            res.args@.len() == 0,
    ;

    /// The command that sets a profile, which is taken in lower case; `Err`
    /// when that is not a known profile.
    fn set_power_profile(&mut self, profile: String) -> (res: Result<PowerCommand, ()>)
        ensures
            final(self).kind() == old(self).kind(),
            is_profile(lowercase(profile@)) ==> (res matches Ok(c) && is_set_command(
                c,
                old(self).kind(),
                lowercase(profile@),
            )),
            !is_profile(lowercase(profile@)) ==> res is Err,
    ;

    /// The profiles that the tool offers.
    fn get_avalible_profiles(&self) -> (res: Option<Vec<String>>)
        ensures
            res matches Some(v) && v@.len() == 3 && forall|i: int|
                0 <= i < 3 ==> (#[trigger] v@[i])@ == profile_list()[i],
    ;

    /// The command that reads the current profile.
    fn current_profile_command(&self) -> (res: PowerCommand)
        ensures
            is_get_command(res, self.kind()),
    ;

    /// The current profile, from the standard output of the `get` command, or
    /// `None` when the command could not be run.
    fn get_current_profile(&self, stdout: Option<Vec<u8>>) -> (res: Option<String>)
        ensures
            match stdout {
                Some(out) => res matches Some(s) && s@ == reported_profile(out@),
                None => res is None,
            },
    ;
}

fn set_command(program: &str, profile: String) -> (res: Result<PowerCommand, ()>)
    ensures
        is_profile(lowercase(profile@)) ==> (res matches Ok(c) && c.program@ == program@
            && c.args@.len() == 2 && c.args@[0]@ == "set"@ && c.args@[1]@ == lowercase(profile@)),
        !is_profile(lowercase(profile@)) ==> res is Err,
{
    let lower = to_lowercase(profile.as_str());
    let a = "power-saver".to_owned();
    let b = "balanced".to_owned();
    let c = "performance".to_owned();
    if lower == a || lower == b || lower == c {
        let mut args: Vec<String> = Vec::new();
        args.push("set".to_owned());
        args.push(lower);
        Ok(PowerCommand { program: program.to_owned(), args })
    } else {
        Err(())
    }
}

fn get_command(program: &str) -> (res: PowerCommand)
    ensures
        res.program@ == program@,
        res.args@.len() == 1,
        res.args@[0]@ == "get"@,
{
    let mut args: Vec<String> = Vec::new();
    args.push("get".to_owned());
    PowerCommand { program: program.to_owned(), args }
}

fn profile_from_output(stdout: Option<Vec<u8>>) -> (res: Option<String>)
    ensures
        match stdout {
            Some(out) => res matches Some(s) && s@ == reported_profile(out@),
            None => res is None,
        },
{
    match stdout {
        Some(out) => {
            let text = string_from_utf8_lossy(out.as_slice());
            let upper = to_uppercase(text.as_str());
            Some(trim(upper.as_str()))
        },
        None => None,
    }
}

/// The power-profiles-daemon command-line tool, `powerprofilesctl`.
pub struct PowerProfileDaemon;

/// TLP's command-line tool, `tlpctl`.
pub struct TLPCTL;

impl PowerPolicyProvider for PowerProfileDaemon {
    open spec fn kind(&self) -> PowerPolicyProviderEnum {
        PowerPolicyProviderEnum::PowerProfileDaemon
    }

    fn which(&self) -> (res: PowerPolicyProviderEnum) {
        PowerPolicyProviderEnum::PowerProfileDaemon
    }

    fn availability_command(&self) -> (res: PowerCommand) {
        PowerCommand { program: "powerprofilesctl".to_owned(), args: Vec::new() }
    }

    fn set_power_profile(&mut self, profile: String) -> (res: Result<PowerCommand, ()>) {
        set_command("powerprofilesctl", profile)
    }

    fn get_avalible_profiles(&self) -> (res: Option<Vec<String>>) {
        Some(known_profiles())
    }

    fn current_profile_command(&self) -> (res: PowerCommand) {
        get_command("powerprofilesctl")
    }

    fn get_current_profile(&self, stdout: Option<Vec<u8>>) -> (res: Option<String>) {
        profile_from_output(stdout)
    }
}

impl PowerPolicyProvider for TLPCTL {
    open spec fn kind(&self) -> PowerPolicyProviderEnum {
        PowerPolicyProviderEnum::TLPCTL
    }

    fn which(&self) -> (res: PowerPolicyProviderEnum) {
        PowerPolicyProviderEnum::TLPCTL
    }

    fn availability_command(&self) -> (res: PowerCommand) {
        PowerCommand { program: "tlpctl".to_owned(), args: Vec::new() }
    }

    fn set_power_profile(&mut self, profile: String) -> (res: Result<PowerCommand, ()>) {
        set_command("tlpctl", profile)
    }

    fn get_avalible_profiles(&self) -> (res: Option<Vec<String>>) {
        Some(known_profiles())
    }

    fn current_profile_command(&self) -> (res: PowerCommand) {
        get_command("tlpctl")
    }

    fn get_current_profile(&self, stdout: Option<Vec<u8>>) -> (res: Option<String>) {
        profile_from_output(stdout)
    }
}

/// A power profile as the user interface lists it: identified by its name.
#[derive(Clone, Debug)]
pub struct WindowsPowerPolicy {
    pub guid: String,
    pub name: String,
}

impl WindowsPowerPolicy {
    /// The policy for a profile, with the profile as both id and name.
    pub fn from_profile(profile: String) -> (res: WindowsPowerPolicy)
        ensures
            res.guid@ == profile@,
            res.name@ == profile@,
    {
        WindowsPowerPolicy { guid: profile.clone(), name: profile }
    }
}

/// The output of a command run for the user interface.
#[derive(Clone, Debug)]
pub struct Output {
    pub stdout: String,
    pub stderr: String,
    pub status: i32,
}

/// Why a power policy could not be set.
#[derive(PartialEq, Eq, Clone, Copy, Debug, Structural)]
pub enum SetPolicyError {
    /// No provider has been chosen.
    NoProvider,
    /// The provider does not know the profile.
    UnknownProfile,
}

/// The names of the available providers, in this order: powerprofilesctl,
/// then tlpctl.
pub open spec fn available_names(ppd: bool, tlp: bool) -> Seq<Seq<char>> {
    let first: Seq<Seq<char>> = if ppd {
        seq!["powerprofilesctl"@]
    } else {
        seq![]
    };
    if tlp {
        first.push("tlpctl"@)
    } else {
        first
    }
}

/// Chooses among the power profile providers and drives the chosen one.
pub struct LinuxPowerPolicyManager {
    pub provider: Option<PowerPolicyProviderEnum>,
}

impl LinuxPowerPolicyManager {
    /// A manager using the first available provider (powerprofilesctl before
    /// tlpctl), or none when neither tool is installed.
    pub fn new(ppd_available: bool, tlpctl_available: bool) -> (res: LinuxPowerPolicyManager)
        ensures
            res.provider == (if ppd_available {
                Some(PowerPolicyProviderEnum::PowerProfileDaemon)
            } else if tlpctl_available {
                Some(PowerPolicyProviderEnum::TLPCTL)
            } else {
                None
            }),
    {
        proof {
            reveal_strlit("powerprofilesctl");
            reveal_strlit("tlpctl");
        }
        let mut s = LinuxPowerPolicyManager { provider: None };
        let mut providers = Self::get_providers(ppd_available, tlpctl_available);
        if providers.len() > 0 {
            let ghost names = available_names(ppd_available, tlpctl_available);
            assert(ppd_available ==> names[0] == "powerprofilesctl"@);
            assert(!ppd_available ==> names[0] == "tlpctl"@);
            let first = providers.swap_remove(0);
            assert(first@ == names[0]);
            s.set_provider(first);
        }
        s
    }

    /// The names of the providers whose tools are installed.
    pub fn get_providers(ppd_available: bool, tlpctl_available: bool) -> (res: Vec<String>)
        ensures
            res@.len() == (if ppd_available { 1int } else { 0int }) + (if tlpctl_available { 1int } else { 0int }),
            ppd_available <==> exists|i: int| 0 <= i < res@.len() && (#[trigger] res@[i])@ == "powerprofilesctl"@,
            tlpctl_available <==> exists|i: int| 0 <= i < res@.len() && (#[trigger] res@[i])@ == "tlpctl"@,
            ppd_available ==> res@[0]@ == "powerprofilesctl"@,
            res@.len() == available_names(ppd_available, tlpctl_available).len(),
            forall|i: int|
                0 <= i < res@.len() ==> (#[trigger] res@[i])@ == available_names(
                    ppd_available,
                    tlpctl_available,
                )[i],
    {
        let mut providers: Vec<String> = Vec::new();
        if ppd_available {
            providers.push(PowerPolicyProviderEnum::PowerProfileDaemon.name());
        }
        if tlpctl_available {
            providers.push(PowerPolicyProviderEnum::TLPCTL.name());
        }
        proof {
            reveal_strlit("powerprofilesctl");
            reveal_strlit("tlpctl");
            assert("tlpctl"@.len() != "powerprofilesctl"@.len());
            if ppd_available {
                assert(providers@[0]@ == "powerprofilesctl"@);
            }
            if tlpctl_available {
                assert(providers@[providers@.len() - 1]@ == "tlpctl"@);
            }
        }
        providers
    }

    /// Chooses the provider with the given name.
    pub fn set_provider(&mut self, name: String)
        requires
            provider_from_name(name@) is Some,
        ensures
            final(self).provider == provider_from_name(name@),
    {
        self.provider = Some(PowerPolicyProviderEnum::from_name(&name));
    }

    /// The command that reads the current profile, when a provider is chosen.
    pub fn current_profile_command(&self) -> (res: Option<PowerCommand>)
        ensures
            match self.provider {
                Some(p) => res matches Some(c) && is_get_command(c, p),
                None => res is None,
            },
    {
        match self.provider {
            Some(PowerPolicyProviderEnum::PowerProfileDaemon) => Some(
                PowerProfileDaemon.current_profile_command(),
            ),
            Some(PowerPolicyProviderEnum::TLPCTL) => Some(TLPCTL.current_profile_command()),
            None => None,
        }
    }

    /// The current profile, from the standard output of the provider's `get`
    /// command (`None` when it could not be run); empty when no provider is
    /// chosen or the command failed.
    pub fn get_current_profile(&self, stdout: Option<Vec<u8>>) -> (res: String)
        ensures
            match (self.provider, stdout) {
                (Some(_), Some(out)) => res@ == reported_profile(out@),
                _ => res@ == Seq::<char>::empty(),
            },
    {
        let reported = match self.provider {
            Some(PowerPolicyProviderEnum::PowerProfileDaemon) => PowerProfileDaemon.get_current_profile(stdout),
            Some(PowerPolicyProviderEnum::TLPCTL) => TLPCTL.get_current_profile(stdout),
            None => None,
        };
        match reported {
            Some(s) => s,
            None => String::new(),
        }
    }

    /// The profiles that the chosen provider offers; none without a provider.
    pub fn get_avalible_profiles(&self) -> (res: Vec<String>)
        ensures
            self.provider is Some ==> res@.len() == 3 && forall|i: int|
                0 <= i < 3 ==> (#[trigger] res@[i])@ == profile_list()[i],
            self.provider is None ==> res@.len() == 0,
    {
        let offered = match self.provider {
            Some(PowerPolicyProviderEnum::PowerProfileDaemon) => PowerProfileDaemon.get_avalible_profiles(),
            Some(PowerPolicyProviderEnum::TLPCTL) => TLPCTL.get_avalible_profiles(),
            None => None,
        };
        match offered {
            Some(v) => v,
            None => Vec::new(),
        }
    }

    /// The command that sets a profile with the chosen provider.
    pub fn set_policy(&mut self, value: String) -> (res: Result<PowerCommand, SetPolicyError>)
        ensures
            final(self).provider == old(self).provider,
            match old(self).provider {
                None => res == Err::<PowerCommand, SetPolicyError>(SetPolicyError::NoProvider),
                Some(p) => if is_profile(lowercase(value@)) {
                    res matches Ok(c) && is_set_command(c, p, lowercase(value@))
                } else {
                    res == Err::<PowerCommand, SetPolicyError>(SetPolicyError::UnknownProfile)
                },
            },
    {
        let chosen = match self.provider {
            Some(PowerPolicyProviderEnum::PowerProfileDaemon) => {
                let mut p = PowerProfileDaemon;
                Some(p.set_power_profile(value))
            },
            Some(PowerPolicyProviderEnum::TLPCTL) => {
                let mut p = TLPCTL;
                Some(p.set_power_profile(value))
            },
            None => None,
        };
        match chosen {
            None => Err(SetPolicyError::NoProvider),
            Some(Ok(c)) => Ok(c),
            Some(Err(())) => Err(SetPolicyError::UnknownProfile),
        }
    }

    /// The active policy as the user interface shows it.
    pub fn active_system_power_policy(&self, stdout: Option<Vec<u8>>) -> (res: Option<WindowsPowerPolicy>)
        ensures
            res matches Some(p) && p.guid@ == p.name@ && match (self.provider, stdout) {
                (Some(_), Some(out)) => p.name@ == reported_profile(out@),
                _ => p.name@ == Seq::<char>::empty(),
            },
    {
        let current = self.get_current_profile(stdout);
        Some(WindowsPowerPolicy::from_profile(current))
    }

    /// The policies that the user interface offers: the chosen provider's
    /// profiles, each with the profile as id and name.
    pub fn get_system_power_policies(&self) -> (res: Vec<WindowsPowerPolicy>)
        ensures
            self.provider is Some ==> res@.len() == 3 && forall|i: int|
                0 <= i < 3 ==> (#[trigger] res@[i]).guid@ == profile_list()[i] && res@[i].name@
                    == profile_list()[i],
            self.provider is None ==> res@.len() == 0,
    {
        let profiles = self.get_avalible_profiles();
        let mut out: Vec<WindowsPowerPolicy> = Vec::new();
        let mut i: usize = 0;
        while i < profiles.len()
            invariant
                i <= profiles@.len(),
                out@.len() == i,
                forall|k: int|
                    0 <= k < i ==> (#[trigger] out@[k]).guid@ == profiles@[k]@ && out@[k].name@
                        == profiles@[k]@,
            decreases profiles@.len() - i,
        {
            out.push(WindowsPowerPolicy::from_profile(profiles[i].clone()));
            i = i + 1;
        }
        out
    }
}

/// A provider is offered exactly when its tool is installed: one entry per
/// installed tool, `powerprofilesctl` first.
pub proof fn law_offered_exactly_installed(ppd: bool, tlp: bool)
    ensures
        available_names(ppd, tlp).len() == (if ppd { 1int } else { 0int }) + (if tlp { 1int } else { 0int }),
        available_names(ppd, tlp).contains("powerprofilesctl"@) <==> ppd,
        available_names(ppd, tlp).contains("tlpctl"@) <==> tlp,
        ppd ==> available_names(ppd, tlp)[0] == "powerprofilesctl"@,
{
    reveal_strlit("powerprofilesctl");
    reveal_strlit("tlpctl");
    assert("tlpctl"@.len() != "powerprofilesctl"@.len());
    let n = available_names(ppd, tlp);
    if ppd {
        assert(n[0] == "powerprofilesctl"@);
    }
    if tlp {
        assert(n[n.len() - 1] == "tlpctl"@);
    }
}

/// A provider's name leads back to the provider.
pub proof fn law_provider_name_round_trip(p: PowerPolicyProviderEnum)
    ensures
        provider_from_name(provider_name(p)) == Some(p),
{
    reveal_strlit("powerprofilesctl");
    reveal_strlit("tlpctl");
    assert("tlpctl"@.len() != "powerprofilesctl"@.len());
}

/// Every offered profile is one that a provider can set.
pub proof fn law_offered_profiles_are_known()
    ensures
        forall|i: int| 0 <= i < profile_list().len() ==> is_profile(#[trigger] profile_list()[i]),
{
}

/// The manager chooses a provider exactly when one is installed, and the
/// one it chooses is installed.
pub proof fn law_chosen_provider_is_available(ppd: bool, tlp: bool)
    ensures
        available_names(ppd, tlp).len() > 0 <==> (ppd || tlp),
        ppd ==> available_names(ppd, tlp)[0] == provider_name(PowerPolicyProviderEnum::PowerProfileDaemon),
        !ppd && tlp ==> available_names(ppd, tlp)[0] == provider_name(PowerPolicyProviderEnum::TLPCTL),
{
}

} // verus!
