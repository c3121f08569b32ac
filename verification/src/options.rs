//! The closed set of configuration options: their keys, the environment
//! variables that override them, and the type each one holds.

use vstd::prelude::*;

verus! {

/// One named setting of the fixed schema, in declaration order.
#[derive(Clone, Copy, Debug, PartialEq, Eq, Structural)]
pub enum ConfigOption {
    DatabaseUrl,
    EnableAcars,
    EnableVdlm2,
    EnableHfdl,
    EnableIridium,
    EnableInmarsat,
    EnableAdsb,
    LogLevel,
}

/// The prefix that every overriding environment variable carries.
pub open spec fn env_prefix_spec() -> Seq<char> {
    "AH"@
}

/// The ASCII upper-case form of a character; other characters stay.
pub open spec fn ascii_upper(c: char) -> char {
    if 'a' <= c && c <= 'z' {
        ((c as u8) - 32) as char
    } else {
        c
    }
}

impl ConfigOption {
    /// The key under which the option stands in every source.
    pub open spec fn key_spec(self) -> Seq<char> {
        match self {
            ConfigOption::DatabaseUrl => "database_url"@,
            ConfigOption::EnableAcars => "enable_acars"@,
            ConfigOption::EnableVdlm2 => "enable_vdlm2"@,
            ConfigOption::EnableHfdl => "enable_hfdl"@,
            ConfigOption::EnableIridium => "enable_iridium"@,
            ConfigOption::EnableInmarsat => "enable_inmarsat"@,
            ConfigOption::EnableAdsb => "enable_adsb"@,
            ConfigOption::LogLevel => "log_level"@,
        }
    }

    /// The name of the environment variable that overrides the option.
    pub open spec fn env_name_spec(self) -> Seq<char> {
        match self {
            ConfigOption::DatabaseUrl => "AH_DATABASE_URL"@,
            ConfigOption::EnableAcars => "AH_ENABLE_ACARS"@,
            ConfigOption::EnableVdlm2 => "AH_ENABLE_VDLM2"@,
            ConfigOption::EnableHfdl => "AH_ENABLE_HFDL"@,
            ConfigOption::EnableIridium => "AH_ENABLE_IRIDIUM"@,
            ConfigOption::EnableInmarsat => "AH_ENABLE_INMARSAT"@,
            ConfigOption::EnableAdsb => "AH_ENABLE_ADSB"@,
            ConfigOption::LogLevel => "AH_LOG_LEVEL"@,
        }
    }

    /// Whether the option holds a boolean; the others hold a string.
    pub open spec fn is_flag_spec(self) -> bool {
        !(self is DatabaseUrl) && !(self is LogLevel)
    }

    /// The place of the option in declaration order.
    pub open spec fn index_spec(self) -> int {
        match self {
            ConfigOption::DatabaseUrl => 0,
            ConfigOption::EnableAcars => 1,
            ConfigOption::EnableVdlm2 => 2,
            ConfigOption::EnableHfdl => 3,
            ConfigOption::EnableIridium => 4,
            ConfigOption::EnableInmarsat => 5,
            ConfigOption::EnableAdsb => 6,
            ConfigOption::LogLevel => 7,
        }
    }

    /// The key under which the option stands in every source.
    pub fn key(self) -> (k: &'static str)
        ensures
            k@ == self.key_spec(),
    {
        match self {
            ConfigOption::DatabaseUrl => "database_url",
            ConfigOption::EnableAcars => "enable_acars",
            ConfigOption::EnableVdlm2 => "enable_vdlm2",
            ConfigOption::EnableHfdl => "enable_hfdl",
            ConfigOption::EnableIridium => "enable_iridium",
            ConfigOption::EnableInmarsat => "enable_inmarsat",
            ConfigOption::EnableAdsb => "enable_adsb",
            ConfigOption::LogLevel => "log_level",
        }
    }

    /// The name of the environment variable that overrides the option.
    pub fn env_name(self) -> (n: &'static str)
        ensures
            n@ == self.env_name_spec(),
    {
        match self {
            ConfigOption::DatabaseUrl => "AH_DATABASE_URL",
            ConfigOption::EnableAcars => "AH_ENABLE_ACARS",
            ConfigOption::EnableVdlm2 => "AH_ENABLE_VDLM2",
            ConfigOption::EnableHfdl => "AH_ENABLE_HFDL",
            ConfigOption::EnableIridium => "AH_ENABLE_IRIDIUM",
            ConfigOption::EnableInmarsat => "AH_ENABLE_INMARSAT",
            ConfigOption::EnableAdsb => "AH_ENABLE_ADSB",
            ConfigOption::LogLevel => "AH_LOG_LEVEL",
        }
    }

    /// Whether the option holds a boolean; the others hold a string.
    pub fn is_flag(self) -> (b: bool)
        ensures
            b == self.is_flag_spec(),
    {
        match self {
            ConfigOption::DatabaseUrl => false,
            ConfigOption::LogLevel => false,
            _ => true,
        }
    }
}

/// Every option, in declaration order.
pub open spec fn all_options_spec() -> Seq<ConfigOption> {
    seq![
        ConfigOption::DatabaseUrl,
        ConfigOption::EnableAcars,
        ConfigOption::EnableVdlm2,
        ConfigOption::EnableHfdl,
        ConfigOption::EnableIridium,
        ConfigOption::EnableInmarsat,
        ConfigOption::EnableAdsb,
        ConfigOption::LogLevel,
    ]
}

/// Every option, in declaration order.
pub fn all_options() -> (v: Vec<ConfigOption>)
    ensures
        v@ == all_options_spec(),
{
    let v = vec![
        ConfigOption::DatabaseUrl,
        ConfigOption::EnableAcars,
        ConfigOption::EnableVdlm2,
        ConfigOption::EnableHfdl,
        ConfigOption::EnableIridium,
        ConfigOption::EnableInmarsat,
        ConfigOption::EnableAdsb,
        ConfigOption::LogLevel,
    ];
    assert(v@ =~= all_options_spec());
    v
}

/// The schema lists each option once, at its own index.
pub proof fn lemma_all_options_complete(option: ConfigOption)
    ensures
        0 <= option.index_spec() < all_options_spec().len(),
        all_options_spec()[option.index_spec()] == option,
        all_options_spec().len() == 8,
{
}

/// The name of the overriding variable is the prefix, an underscore and the
/// key in upper case.
pub proof fn lemma_env_name_is_prefixed_upper_key(option: ConfigOption)
    ensures
        option.env_name_spec() == env_prefix_spec() + seq!['_'] + option.key_spec().map_values(
            |c: char| ascii_upper(c),
        ),
{
    reveal_strlit("AH");
    reveal_strlit("database_url");
    reveal_strlit("enable_acars");
    reveal_strlit("enable_vdlm2");
    reveal_strlit("enable_hfdl");
    reveal_strlit("enable_iridium");
    reveal_strlit("enable_inmarsat");
    reveal_strlit("enable_adsb");
    reveal_strlit("log_level");
    reveal_strlit("AH_DATABASE_URL");
    reveal_strlit("AH_ENABLE_ACARS");
    reveal_strlit("AH_ENABLE_VDLM2");
    reveal_strlit("AH_ENABLE_HFDL");
    reveal_strlit("AH_ENABLE_IRIDIUM");
    reveal_strlit("AH_ENABLE_INMARSAT");
    reveal_strlit("AH_ENABLE_ADSB");
    reveal_strlit("AH_LOG_LEVEL");
    let upper = option.key_spec().map_values(|c: char| ascii_upper(c));
    assert(option.env_name_spec() =~= env_prefix_spec() + seq!['_'] + upper);
}

/// No two options share a key.
pub proof fn lemma_keys_distinct(a: ConfigOption, b: ConfigOption)
    requires
        a != b,
    ensures
        a.key_spec() != b.key_spec(),
{
    reveal_strlit("database_url");
    reveal_strlit("enable_acars");
    reveal_strlit("enable_vdlm2");
    reveal_strlit("enable_hfdl");
    reveal_strlit("enable_iridium");
    reveal_strlit("enable_inmarsat");
    reveal_strlit("enable_adsb");
    reveal_strlit("log_level");
    let ka = a.key_spec();
    let kb = b.key_spec();
    if ka.len() == kb.len() {
        assert(ka[7] != kb[7] || ka[9] != kb[9] || ka[11] != kb[11]);
    }
}

} // verus!
