//! The resolved configuration and the rules that produce it.

use vstd::prelude::*;
use crate::error::{ResolveError, ResolveErrorView};
use crate::options::ConfigOption;
use crate::sources::{lookup_layered, RawOverrideMap, RawTable};
use crate::text::{flag_literal, flag_text, parse_flag, parse_flag_spec};

verus! {

/// The resolved value of every option, and the path of the file that
/// stands behind them.
#[derive(Clone, Debug, PartialEq, Eq)]
pub struct AhConfig {
    pub database_url: String,
    pub enable_acars: bool,
    pub enable_vdlm2: bool,
    pub enable_hfdl: bool,
    pub enable_iridium: bool,
    pub enable_inmarsat: bool,
    pub enable_adsb: bool,
    pub log_level: String,
    pub config_file: String,
}

/// An `AhConfig` with its texts as sequences of characters.
pub struct ConfigValues {
    pub database_url: Seq<char>,
    pub enable_acars: bool,
    pub enable_vdlm2: bool,
    pub enable_hfdl: bool,
    pub enable_iridium: bool,
    pub enable_inmarsat: bool,
    pub enable_adsb: bool,
    pub log_level: Seq<char>,
    pub config_file: Seq<char>,
}

impl View for AhConfig {
    type V = ConfigValues;

    open spec fn view(&self) -> ConfigValues {
        ConfigValues {
            database_url: self.database_url@,
            enable_acars: self.enable_acars,
            enable_vdlm2: self.enable_vdlm2,
            enable_hfdl: self.enable_hfdl,
            enable_iridium: self.enable_iridium,
            enable_inmarsat: self.enable_inmarsat,
            enable_adsb: self.enable_adsb,
            log_level: self.log_level@,
            config_file: self.config_file@,
        }
    }
}

/// The path of the configuration file where nothing overrides it.
pub open spec fn default_path_spec() -> Seq<char> {
    "./ah_config.toml"@
}

/// The compiled-in defaults, for a configuration file at `config_file`.
pub open spec fn defaults_spec(config_file: Seq<char>) -> ConfigValues {
    ConfigValues {
        database_url: "sqlite://acars.db"@,
        enable_acars: false,
        enable_vdlm2: false,
        enable_hfdl: false,
        enable_iridium: false,
        enable_inmarsat: false,
        enable_adsb: false,
        log_level: "info"@,
        config_file,
    }
}

impl ConfigValues {
    /// The value of a string option.
    pub open spec fn text_of(self, option: ConfigOption) -> Seq<char>
        recommends
            !option.is_flag_spec(),
    {
        match option {
            ConfigOption::LogLevel => self.log_level,
            _ => self.database_url,
        }
    }

    /// The value of a boolean option.
    pub open spec fn flag_of(self, option: ConfigOption) -> bool
        recommends
            option.is_flag_spec(),
    {
        match option {
            ConfigOption::EnableAcars => self.enable_acars,
            ConfigOption::EnableVdlm2 => self.enable_vdlm2,
            ConfigOption::EnableHfdl => self.enable_hfdl,
            ConfigOption::EnableIridium => self.enable_iridium,
            ConfigOption::EnableInmarsat => self.enable_inmarsat,
            _ => self.enable_adsb,
        }
    }

    /// The value of an option as the file format writes it, without the
    /// quotes of a string.
    pub open spec fn raw_of(self, option: ConfigOption) -> Seq<char> {
        if option.is_flag_spec() {
            flag_text(self.flag_of(option))
        } else {
            self.text_of(option)
        }
    }
}

/// The resolved text of a string option: the raw text where a source
/// gives one, else the default.
pub open spec fn resolved_text(
    layers: Seq<RawTable>,
    option: ConfigOption,
    default: Seq<char>,
) -> Seq<char> {
    match lookup_layered(layers, option.key_spec()) {
        Some(raw) => raw,
        None => default,
    }
}

/// The resolved value of a boolean option: the default where no source
/// gives a raw text, else what the raw text stands for; `None` where it
/// stands for no boolean.
pub open spec fn resolved_flag(
    layers: Seq<RawTable>,
    option: ConfigOption,
    default: bool,
) -> Option<bool> {
    match lookup_layered(layers, option.key_spec()) {
        Some(raw) => parse_flag_spec(raw),
        None => Some(default),
    }
}

/// Whether the sources give a boolean option a raw text that is no boolean.
pub open spec fn is_malformed(layers: Seq<RawTable>, option: ConfigOption) -> bool {
    option.is_flag_spec() && resolved_flag(layers, option, false) is None
}

/// The first option, in declaration order, whose raw text cannot be
/// converted to its type.
pub open spec fn first_malformed(layers: Seq<RawTable>) -> Option<ConfigOption> {
    if is_malformed(layers, ConfigOption::EnableAcars) {
        Some(ConfigOption::EnableAcars)
    } else if is_malformed(layers, ConfigOption::EnableVdlm2) {
        Some(ConfigOption::EnableVdlm2)
    } else if is_malformed(layers, ConfigOption::EnableHfdl) {
        Some(ConfigOption::EnableHfdl)
    } else if is_malformed(layers, ConfigOption::EnableIridium) {
        Some(ConfigOption::EnableIridium)
    } else if is_malformed(layers, ConfigOption::EnableInmarsat) {
        Some(ConfigOption::EnableInmarsat)
    } else if is_malformed(layers, ConfigOption::EnableAdsb) {
        Some(ConfigOption::EnableAdsb)
    } else {
        None
    }
}

/// The configuration that a stack of sources resolves to, over the
/// defaults `base`: every option is overlaid on its own, and the first
/// malformed boolean fails the whole resolution.
pub open spec fn resolve_spec(base: ConfigValues, layers: Seq<RawTable>) -> Result<
    ConfigValues,
    ResolveErrorView,
> {
    match first_malformed(layers) {
        Some(option) => Err(
            ResolveErrorView::Coercion {
                option,
                value: lookup_layered(layers, option.key_spec()).unwrap(),
            },
        ),
        None => Ok(
            ConfigValues {
                database_url: resolved_text(layers, ConfigOption::DatabaseUrl, base.database_url),
                enable_acars: resolved_flag(
                    layers,
                    ConfigOption::EnableAcars,
                    base.enable_acars,
                ).unwrap(),
                enable_vdlm2: resolved_flag(
                    layers,
                    ConfigOption::EnableVdlm2,
                    base.enable_vdlm2,
                ).unwrap(),
                enable_hfdl: resolved_flag(layers, ConfigOption::EnableHfdl, base.enable_hfdl).unwrap(),
                enable_iridium: resolved_flag(
                    layers,
                    ConfigOption::EnableIridium,
                    base.enable_iridium,
                ).unwrap(),
                enable_inmarsat: resolved_flag(
                    layers,
                    ConfigOption::EnableInmarsat,
                    base.enable_inmarsat,
                ).unwrap(),
                enable_adsb: resolved_flag(layers, ConfigOption::EnableAdsb, base.enable_adsb).unwrap(),
                log_level: resolved_text(layers, ConfigOption::LogLevel, base.log_level),
                config_file: base.config_file,
            },
        ),
    }
}

/// Resolves one boolean option over its default: the default where no
/// source knows the option's key, else the boolean that the raw text stands
/// for, and a coercion error with that text where it stands for none.
pub fn overlay_flag(overrides: &RawOverrideMap, option: ConfigOption, default: bool) -> (r: Result<
    bool,
    ResolveError,
>)
    ensures
        match r {
            Ok(b) => resolved_flag(overrides@, option, default) == Some(b),
            Err(e) => resolved_flag(overrides@, option, default) is None && e@ == (
                ResolveErrorView::Coercion {
                    option,
                    value: overrides.value_of(option.key_spec()).unwrap(),
                }
            ),
        },
{
    match overrides.get(option.key()) {
        None => Ok(default),
        Some(raw) => match parse_flag(raw.as_str()) {
            Some(b) => Ok(b),
            None => Err(ResolveError::Coercion { option, value: raw.clone() }),
        },
    }
}

/// Resolves one string option over its default.
pub fn overlay_text(overrides: &RawOverrideMap, option: ConfigOption, default: String) -> (r:
    String)
    ensures
        r@ == resolved_text(overrides@, option, default@),
{
    match overrides.get(option.key()) {
        None => default,
        Some(raw) => raw.clone(),
    }
}

/// One line of the file format for a string option: the value in double
/// quotes.
pub open spec fn text_line(option: ConfigOption, value: Seq<char>) -> Seq<char> {
    option.key_spec() + " = \""@ + value + "\"\n"@
}

/// One line of the file format for a boolean option: a bare literal.
pub open spec fn flag_line(option: ConfigOption, value: bool) -> Seq<char> {
    option.key_spec() + " = "@ + flag_text(value) + "\n"@
}

/// The text of a configuration in the file format: one line for each
/// option, in declaration order.
pub open spec fn render_spec(c: ConfigValues) -> Seq<char> {
    text_line(ConfigOption::DatabaseUrl, c.database_url) + flag_line(
        ConfigOption::EnableAcars,
        c.enable_acars,
    ) + flag_line(ConfigOption::EnableVdlm2, c.enable_vdlm2) + flag_line(
        ConfigOption::EnableHfdl,
        c.enable_hfdl,
    ) + flag_line(ConfigOption::EnableIridium, c.enable_iridium) + flag_line(
        ConfigOption::EnableInmarsat,
        c.enable_inmarsat,
    ) + flag_line(ConfigOption::EnableAdsb, c.enable_adsb) + text_line(
        ConfigOption::LogLevel,
        c.log_level,
    )
}

/// The diagnostic line of an option: its key, a colon and its value.
pub open spec fn describe_line(c: ConfigValues, option: ConfigOption) -> Seq<char> {
    option.key_spec() + ": "@ + c.raw_of(option)
}

fn push_text_line(out: &mut String, option: ConfigOption, value: &str)
    ensures
        final(out)@ == old(out)@ + text_line(option, value@),
{
    out.append(option.key());
    out.append(" = \"");
    out.append(value);
    out.append("\"\n");
    assert(out@ =~= old(out)@ + text_line(option, value@));
}

fn push_flag_line(out: &mut String, option: ConfigOption, value: bool)
    ensures
        final(out)@ == old(out)@ + flag_line(option, value),
{
    out.append(option.key());
    out.append(" = ");
    out.append(flag_literal(value));
    out.append("\n");
    assert(out@ =~= old(out)@ + flag_line(option, value));
}

fn describe(option: ConfigOption, value: &str) -> (line: String)
    ensures
        line@ == option.key_spec() + ": "@ + value@,
{
    let mut line = String::new();
    line.append(option.key());
    line.append(": ");
    line.append(value);
    assert(line@ =~= option.key_spec() + ": "@ + value@);
    line
}

impl AhConfig {
    /// The compiled-in defaults, for a configuration file at `config_file`.
    pub fn with_defaults(config_file: String) -> (c: AhConfig)
        ensures
            c@ == defaults_spec(config_file@),
    {
        AhConfig {
            database_url: "sqlite://acars.db".to_owned(),
            enable_acars: false,
            enable_vdlm2: false,
            enable_hfdl: false,
            enable_iridium: false,
            enable_inmarsat: false,
            enable_adsb: false,
            log_level: "info".to_owned(),
            config_file,
        }
    }

    /// Overlays a stack of raw sources on the defaults, one option at a
    /// time. A boolean option whose raw text is neither `true` nor `false`
    /// fails the resolution; nothing falls back to a default then.
    pub fn resolve(config_file: String, overrides: &RawOverrideMap) -> (r: Result<
        AhConfig,
        ResolveError,
    >)
        ensures
            match r {
                Ok(c) => resolve_spec(defaults_spec(config_file@), overrides@) == Ok::<
                    ConfigValues,
                    ResolveErrorView,
                >(c@),
                Err(e) => resolve_spec(defaults_spec(config_file@), overrides@) == Err::<
                    ConfigValues,
                    ResolveErrorView,
                >(e@),
            },
    {
        let base = AhConfig::with_defaults(config_file);
        let database_url = overlay_text(overrides, ConfigOption::DatabaseUrl, base.database_url);
        let enable_acars = overlay_flag(overrides, ConfigOption::EnableAcars, base.enable_acars)?;
        let enable_vdlm2 = overlay_flag(overrides, ConfigOption::EnableVdlm2, base.enable_vdlm2)?;
        let enable_hfdl = overlay_flag(overrides, ConfigOption::EnableHfdl, base.enable_hfdl)?;
        let enable_iridium = overlay_flag(
            overrides,
            ConfigOption::EnableIridium,
            base.enable_iridium,
        )?;
        let enable_inmarsat = overlay_flag(
            overrides,
            ConfigOption::EnableInmarsat,
            base.enable_inmarsat,
        )?;
        let enable_adsb = overlay_flag(overrides, ConfigOption::EnableAdsb, base.enable_adsb)?;
        let log_level = overlay_text(overrides, ConfigOption::LogLevel, base.log_level);
        Ok(
            AhConfig {
                database_url,
                enable_acars,
                enable_vdlm2,
                enable_hfdl,
                enable_iridium,
                enable_inmarsat,
                enable_adsb,
                log_level,
                config_file: base.config_file,
            },
        )
    }

    /// The configuration in the file format: strings quoted, booleans as
    /// bare lowercase literals, one line for each option in declaration
    /// order.
    pub fn get_config_as_toml_string(&self) -> (text: String)
        ensures
            text@ == render_spec(self@),
    {
        let mut config = String::new();
        push_text_line(&mut config, ConfigOption::DatabaseUrl, self.database_url.as_str());
        push_flag_line(&mut config, ConfigOption::EnableAcars, self.enable_acars);
        push_flag_line(&mut config, ConfigOption::EnableVdlm2, self.enable_vdlm2);
        push_flag_line(&mut config, ConfigOption::EnableHfdl, self.enable_hfdl);
        push_flag_line(&mut config, ConfigOption::EnableIridium, self.enable_iridium);
        push_flag_line(&mut config, ConfigOption::EnableInmarsat, self.enable_inmarsat);
        push_flag_line(&mut config, ConfigOption::EnableAdsb, self.enable_adsb);
        push_text_line(&mut config, ConfigOption::LogLevel, self.log_level.as_str());
        assert(config@ =~= render_spec(self@));
        config
    }

    /// The diagnostic lines that show every option's value, in declaration
    /// order, for the caller to hand to its logger.
    pub fn show_config(&self) -> (lines: Vec<String>)
        ensures
            lines@.len() == 8,
            forall|option: ConfigOption| #[trigger]
                lines@[option.index_spec()]@ == describe_line(self@, option),
    {
        let mut lines: Vec<String> = Vec::new();
        lines.push(describe(ConfigOption::DatabaseUrl, self.database_url.as_str()));
        lines.push(describe(ConfigOption::EnableAcars, flag_literal(self.enable_acars)));
        lines.push(describe(ConfigOption::EnableVdlm2, flag_literal(self.enable_vdlm2)));
        lines.push(describe(ConfigOption::EnableHfdl, flag_literal(self.enable_hfdl)));
        lines.push(describe(ConfigOption::EnableIridium, flag_literal(self.enable_iridium)));
        lines.push(describe(ConfigOption::EnableInmarsat, flag_literal(self.enable_inmarsat)));
        lines.push(describe(ConfigOption::EnableAdsb, flag_literal(self.enable_adsb)));
        lines.push(describe(ConfigOption::LogLevel, self.log_level.as_str()));
        lines
    }
}

} // verus!
