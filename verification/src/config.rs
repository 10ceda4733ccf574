//! Configuration of a driver.

use crate::text::{
    decimal, lemma_decimals_told_apart, lemma_regroup, lemma_same_parts, lemma_told_apart_at,
    lemma_told_apart_before, lemma_told_apart_behind, optional_view, push_decimal, told_apart,
};
use vstd::prelude::*;

verus! {

/// Configuration for creating an LLM driver.
pub struct DriverConfig {
    /// Provider name.
    pub provider: String,
    /// API key.
    pub api_key: Option<String>,
    /// Base URL override.
    pub base_url: Option<String>,
    /// Skip interactive permission prompts (providers that run a CLI only).
    ///
    /// When `true`, adds `--dangerously-skip-permissions` to the command line of
    /// the CLI. It is `true` unless a configuration says otherwise: a daemon has
    /// no interactive terminal, so a prompt would block it forever.
    pub skip_permissions: bool,
    /// Per-message subprocess turn timeout in seconds.
    ///
    /// Caps how long a single turn of a CLI subprocess may take before the
    /// process is killed. When unset, the driver's own default is used. Drivers
    /// without a subprocess ignore it.
    pub subprocess_timeout_secs: Option<u64>,
}

impl Clone for DriverConfig {
    fn clone(&self) -> (copy: DriverConfig)
        ensures
            copy == *self,
    {
        DriverConfig {
            provider: self.provider.clone(),
            api_key: match &self.api_key {
                Some(key) => Some(key.clone()),
                None => None,
            },
            base_url: match &self.base_url {
                Some(url) => Some(url.clone()),
                None => None,
            },
            skip_permissions: self.skip_permissions,
            subprocess_timeout_secs: self.subprocess_timeout_secs,
        }
    }
}

/// What `skip_permissions` is where a configuration does not say.
pub fn default_skip_permissions() -> (skip: bool)
    ensures
        skip,
{
    true
}

/// A string as its `Debug` output shows it: in quotes, with escapes.
pub uninterp spec fn str_debug(text: Seq<char>) -> Seq<char>;

/// `<str as std::fmt::Debug>::fmt`, through `format!`: the string in quotes, with
/// the escapes of `char::escape_debug`. The result depends on the string alone.
#[verifier::external_body]
fn debug_of_str(text: &str) -> (shown: String)
    ensures
        shown@ == str_debug(text@),
{
    format!("{:?}", text)
}

/// An optional value in `Debug` form, given the `Debug` form of what is inside.
/// The pretty form is that of a field of a struct, which is indented once.
pub open spec fn optional_debug(inner: Option<Seq<char>>, pretty: bool) -> Seq<char> {
    match inner {
        None => "None"@,
        Some(shown) => if pretty {
            "Some(\n        "@ + shown + ",\n    )"@
        } else {
            "Some("@ + shown + ")"@
        },
    }
}

/// Append an optional value in `Debug` form.
fn push_optional(out: &mut String, inner: Option<String>, pretty: bool)
    ensures
        final(out)@ == old(out)@ + optional_debug(optional_view(inner), pretty),
{
    match inner {
        None => {
            out.append("None");
        },
        Some(shown) => {
            if pretty {
                out.append("Some(\n        ");
                out.append(shown.as_str());
                out.append(",\n    )");
            } else {
                out.append("Some(");
                out.append(shown.as_str());
                out.append(")");
            }
        },
    }
}

/// What stands in front of a field's value in `Debug` form: what parts it from what
/// comes before, which differs for the first field, and the field's name.
pub open spec fn field_head(first: bool, name: Seq<char>, pretty: bool) -> Seq<char> {
    (if pretty {
        if first {
            " {\n    "@
        } else {
            ",\n    "@
        }
    } else {
        if first {
            " { "@
        } else {
            ", "@
        }
    }) + name + ": "@
}

/// Append what stands in front of a field's value.
fn push_field(out: &mut String, first: bool, name: &str, pretty: bool)
    ensures
        final(out)@ == old(out)@ + field_head(first, name@, pretty),
{
    if pretty {
        if first {
            out.append(" {\n    ");
        } else {
            out.append(",\n    ");
        }
    } else {
        if first {
            out.append(" { ");
        } else {
            out.append(", ");
        }
    }
    out.append(name);
    out.append(": ");
}

/// A truth value in `Debug` form.
pub open spec fn bool_debug(value: bool) -> Seq<char> {
    if value {
        "true"@
    } else {
        "false"@
    }
}

/// What closes a struct in `Debug` form.
pub open spec fn struct_end(pretty: bool) -> Seq<char> {
    if pretty {
        ",\n}"@
    } else {
        " }"@
    }
}

/// The characters of an optional borrowed string.
pub open spec fn optional_str_view(text: Option<&str>) -> Option<Seq<char>> {
    match text {
        Some(inner) => Some(inner@),
        None => None,
    }
}

impl DriverConfig {
    /// What is shown of the API key: that there is one.
    pub open spec fn shown_api_key(&self) -> Option<Seq<char>> {
        match self.api_key {
            Some(_) => Some("\""@ + "<redacted>"@ + "\""@),
            None => None,
        }
    }

    /// What is shown of the base URL.
    pub open spec fn shown_base_url(&self) -> Option<Seq<char>> {
        match self.base_url {
            Some(url) => Some(str_debug(url@)),
            None => None,
        }
    }

    /// What is shown of the timeout.
    pub open spec fn shown_timeout(&self) -> Option<Seq<char>> {
        match self.subprocess_timeout_secs {
            Some(secs) => Some(decimal(secs as nat)),
            None => None,
        }
    }

    /// The `Debug` form of the configuration, given the quoted forms of its provider
    /// and of its base URL.
    pub open spec fn debug_quoted(
        &self,
        provider: Seq<char>,
        base_url: Option<Seq<char>>,
        pretty: bool,
    ) -> Seq<char> {
        "DriverConfig"@ + field_head(true, "provider"@, pretty) + provider + field_head(
            false,
            "api_key"@,
            pretty,
        ) + optional_debug(self.shown_api_key(), pretty) + field_head(false, "base_url"@, pretty)
            + optional_debug(base_url, pretty) + field_head(false, "skip_permissions"@, pretty)
            + bool_debug(self.skip_permissions) + field_head(
            false,
            "subprocess_timeout_secs"@,
            pretty,
        ) + optional_debug(self.shown_timeout(), pretty) + struct_end(pretty)
    }

    /// The `Debug` form of the configuration.
    pub open spec fn debug(&self, pretty: bool) -> Seq<char> {
        self.debug_quoted(str_debug(self.provider@), self.shown_base_url(), pretty)
    }

    /// What stands for the API key wherever the configuration is shown.
    pub fn redacted_api_key(&self) -> (mark: Option<&'static str>)
        ensures
            match self.api_key {
                Some(_) => mark matches Some(text) && text@ == "<redacted>"@,
                None => mark is None,
            },
    {
        match &self.api_key {
            Some(_) => Some("<redacted>"),
            None => None,
        }
    }

    /// The `Debug` form of the configuration, with the provider and the base URL as
    /// they are given, in quotes already.
    pub fn debug_string_quoted(
        &self,
        provider: &str,
        base_url: Option<&str>,
        pretty: bool,
    ) -> (shown: String)
        ensures
            shown@ == self.debug_quoted(provider@, optional_str_view(base_url), pretty),
    {
        let mut out = String::new();
        out.append("DriverConfig");
        push_field(&mut out, true, "provider", pretty);
        out.append(provider);
        push_field(&mut out, false, "api_key", pretty);
        let api_key: Option<String> = match self.redacted_api_key() {
            Some(mark) => {
                let mut quoted = String::new();
                quoted.append("\"");
                quoted.append(mark);
                quoted.append("\"");
                proof {
                    assert(quoted@ =~= "\""@ + "<redacted>"@ + "\""@);
                }
                Some(quoted)
            },
            None => None,
        };
        push_optional(&mut out, api_key, pretty);
        push_field(&mut out, false, "base_url", pretty);
        let base_url: Option<String> = match base_url {
            Some(url) => Some(url.to_owned()),
            None => None,
        };
        push_optional(&mut out, base_url, pretty);
        push_field(&mut out, false, "skip_permissions", pretty);
        out.append(
            if self.skip_permissions {
                "true"
            } else {
                "false"
            },
        );
        push_field(&mut out, false, "subprocess_timeout_secs", pretty);
        let timeout: Option<String> = match self.subprocess_timeout_secs {
            Some(secs) => {
                let mut digits = String::new();
                push_decimal(&mut digits, secs);
                proof {
                    assert(digits@ =~= decimal(secs as nat));
                }
                Some(digits)
            },
            None => None,
        };
        push_optional(&mut out, timeout, pretty);
        out.append(
            if pretty {
                ",\n}"
            } else {
                " }"
            },
        );
        out
    }

    /// The `Debug` form of the configuration, on one line or, if `pretty`, with a
    /// line for each field.
    ///
    /// SECURITY: the API key is redacted.
    pub fn debug_string(&self, pretty: bool) -> (shown: String)
        ensures
            shown@ == self.debug(pretty),
    {
        let provider = debug_of_str(self.provider.as_str());
        match &self.base_url {
            Some(url) => {
                let quoted = debug_of_str(url.as_str());
                self.debug_string_quoted(provider.as_str(), Some(quoted.as_str()), pretty)
            },
            None => self.debug_string_quoted(provider.as_str(), None, pretty),
        }
    }
}

/// Whether two configurations agree in all that is shown of them: in every field
/// but the API key, and in whether there is an API key.
pub open spec fn same_but_key(left: DriverConfig, right: DriverConfig) -> bool {
    &&& left.api_key is Some <==> right.api_key is Some
    &&& left.provider@ == right.provider@
    &&& optional_view(left.base_url) == optional_view(right.base_url)
    &&& left.skip_permissions == right.skip_permissions
    &&& left.subprocess_timeout_secs == right.subprocess_timeout_secs
}

/// The `Debug` form says nothing of the API key but whether there is one: two
/// configurations that differ only in the key itself are shown alike.
pub proof fn law_api_key_is_redacted(left: DriverConfig, right: DriverConfig, pretty: bool)
    requires
        same_but_key(left, right),
    ensures
        left.debug(pretty) == right.debug(pretty),
{
}

/// Whether two strings can be told apart by their quoted forms: if they differ,
/// neither quoted form is the beginning of the other.
pub open spec fn quoted_apart(left: Seq<char>, right: Seq<char>) -> bool {
    left != right ==> !str_debug(left).is_prefix_of(str_debug(right)) && !str_debug(
        right,
    ).is_prefix_of(str_debug(left))
}

/// Joining texts from the left or from the right comes to the same.
proof fn lemma_grouped_from_right(
    start: Seq<char>,
    a: Seq<char>,
    b: Seq<char>,
    c: Seq<char>,
    d: Seq<char>,
    e: Seq<char>,
    f: Seq<char>,
    g: Seq<char>,
    h: Seq<char>,
    i: Seq<char>,
    end: Seq<char>,
)
    ensures
        start + a + b + c + d + e + f + g + h + i + end == start + (a + (b + (c + (d + (e + (f + (g
            + (h + (i + end))))))))),
{
    lemma_regroup(start + a + b + c + d + e + f + g + h, i, end);
    lemma_regroup(start + a + b + c + d + e + f + g, h, i + end);
    lemma_regroup(start + a + b + c + d + e + f, g, h + (i + end));
    lemma_regroup(start + a + b + c + d + e, f, g + (h + (i + end)));
    lemma_regroup(start + a + b + c + d, e, f + (g + (h + (i + end))));
    lemma_regroup(start + a + b + c, d, e + (f + (g + (h + (i + end)))));
    lemma_regroup(start + a + b, c, d + (e + (f + (g + (h + (i + end))))));
    lemma_regroup(start + a, b, c + (d + (e + (f + (g + (h + (i + end)))))));
    lemma_regroup(start, a, b + (c + (d + (e + (f + (g + (h + (i + end))))))));
}

/// Optional values whose contents can be told apart can be told apart themselves.
proof fn lemma_optionals_told_apart(left: Option<Seq<char>>, right: Option<Seq<char>>, pretty: bool)
    requires
        left is Some && right is Some ==> told_apart(left->0, right->0),
    ensures
        told_apart(optional_debug(left, pretty), optional_debug(right, pretty)),
        optional_debug(left, pretty) == optional_debug(right, pretty) ==> left == right,
{
    reveal_strlit("None");
    reveal_strlit("Some(");
    reveal_strlit("Some(\n        ");
    let lead = if pretty {
        "Some(\n        "@
    } else {
        "Some("@
    };
    let end = if pretty {
        ",\n    )"@
    } else {
        ")"@
    };
    match (left, right) {
        (Some(a), Some(b)) => {
            lemma_told_apart_before(a, b, end);
            lemma_told_apart_behind(lead, a + end, b + end);
            lemma_regroup(lead, a, end);
            lemma_regroup(lead, b, end);
            if optional_debug(left, pretty) == optional_debug(right, pretty) {
                lemma_same_parts(lead, a + end, lead, b + end);
                lemma_same_parts(a, end, b, end);
            }
        },
        (None, None) => {},
        _ => {
            assert(optional_debug(left, pretty)[0] != optional_debug(right, pretty)[0]);
            lemma_told_apart_at(optional_debug(left, pretty), optional_debug(right, pretty), 0);
        },
    }
}

/// Optional numbers can be told apart.
proof fn lemma_timeouts_told_apart(left: DriverConfig, right: DriverConfig, pretty: bool)
    ensures
        told_apart(
            optional_debug(left.shown_timeout(), pretty),
            optional_debug(right.shown_timeout(), pretty),
        ),
        optional_debug(left.shown_timeout(), pretty) == optional_debug(
            right.shown_timeout(),
            pretty,
        ) ==> left.subprocess_timeout_secs == right.subprocess_timeout_secs,
{
    reveal_strlit(",\n    )");
    reveal_strlit(")");
    let lead = if pretty {
        "Some(\n        "@
    } else {
        "Some("@
    };
    let end = if pretty {
        ",\n    )"@
    } else {
        ")"@
    };
    match (left.subprocess_timeout_secs, right.subprocess_timeout_secs) {
        (Some(a), Some(b)) => {
            let first = decimal(a as nat);
            let second = decimal(b as nat);
            lemma_decimals_told_apart(a as nat, b as nat, end);
            lemma_told_apart_behind(lead, first + end, second + end);
            lemma_regroup(lead, first, end);
            lemma_regroup(lead, second, end);
            if optional_debug(left.shown_timeout(), pretty) == optional_debug(
                right.shown_timeout(),
                pretty,
            ) {
                lemma_same_parts(lead, first + end, lead, second + end);
            }
        },
        _ => {
            lemma_optionals_told_apart(left.shown_timeout(), right.shown_timeout(), pretty);
        },
    }
}

/// Only the content of the API key is hidden: two configurations are shown alike
/// if and only if they agree in every other field, and in whether there is a key.
/// That rests on the quoted forms of their strings, which have to tell the
/// providers, and the base URLs if both have one, apart.
pub proof fn law_only_the_key_is_hidden(left: DriverConfig, right: DriverConfig, pretty: bool)
    requires
        quoted_apart(left.provider@, right.provider@),
        left.base_url is Some && right.base_url is Some ==> quoted_apart(
            left.base_url->0@,
            right.base_url->0@,
        ),
    ensures
        left.debug(pretty) == right.debug(pretty) <==> same_but_key(left, right),
{
    if left.debug(pretty) == right.debug(pretty) {
        let start = "DriverConfig"@ + field_head(true, "provider"@, pretty);
        let (a1, a2) = (str_debug(left.provider@), str_debug(right.provider@));
        let b = field_head(false, "api_key"@, pretty);
        let c1 = optional_debug(left.shown_api_key(), pretty);
        let c2 = optional_debug(right.shown_api_key(), pretty);
        let d = field_head(false, "base_url"@, pretty);
        let e1 = optional_debug(left.shown_base_url(), pretty);
        let e2 = optional_debug(right.shown_base_url(), pretty);
        let f = field_head(false, "skip_permissions"@, pretty);
        let (g1, g2) = (bool_debug(left.skip_permissions), bool_debug(right.skip_permissions));
        let h = field_head(false, "subprocess_timeout_secs"@, pretty);
        let i1 = optional_debug(left.shown_timeout(), pretty);
        let i2 = optional_debug(right.shown_timeout(), pretty);
        let end = struct_end(pretty);
        lemma_grouped_from_right(start, a1, b, c1, d, e1, f, g1, h, i1, end);
        lemma_grouped_from_right(start, a2, b, c2, d, e2, f, g2, h, i2, end);
        let (h1, h2) = (h + (i1 + end), h + (i2 + end));
        let (f1, f2) = (f + (g1 + h1), f + (g2 + h2));
        let (d1, d2) = (d + (e1 + f1), d + (e2 + f2));
        let (b1, b2) = (b + (c1 + d1), b + (c2 + d2));
        lemma_same_parts(start, a1 + b1, start, a2 + b2);
        lemma_same_parts(a1, b1, a2, b2);
        lemma_same_parts(b, c1 + d1, b, c2 + d2);
        lemma_optionals_told_apart(left.shown_api_key(), right.shown_api_key(), pretty);
        lemma_same_parts(c1, d1, c2, d2);
        lemma_same_parts(d, e1 + f1, d, e2 + f2);
        lemma_optionals_told_apart(left.shown_base_url(), right.shown_base_url(), pretty);
        lemma_same_parts(e1, f1, e2, f2);
        lemma_same_parts(f, g1 + h1, f, g2 + h2);
        reveal_strlit("true");
        reveal_strlit("false");
        if left.skip_permissions != right.skip_permissions {
            lemma_told_apart_at(g1, g2, 0);
        }
        lemma_same_parts(g1, h1, g2, h2);
        lemma_same_parts(h, i1 + end, h, i2 + end);
        lemma_timeouts_told_apart(left, right, pretty);
        lemma_same_parts(i1, end, i2, end);
    }
}

/// The `Debug` form on one line, for all values of the fields: each field stands
/// there under its name, in order, the strings as they are given, and a mark in
/// place of the API key.
pub proof fn law_debug_on_one_line(
    config: DriverConfig,
    provider: Seq<char>,
    base_url: Option<Seq<char>>,
)
    ensures
        config.debug_quoted(provider, base_url, false) == "DriverConfig { provider: "@ + provider
            + ", api_key: "@ + (if config.api_key is Some {
            "Some(\"<redacted>\")"@
        } else {
            "None"@
        }) + ", base_url: "@ + (match base_url {
            Some(url) => "Some("@ + url + ")"@,
            None => "None"@,
        }) + ", skip_permissions: "@ + (if config.skip_permissions {
            "true"@
        } else {
            "false"@
        }) + ", subprocess_timeout_secs: "@ + (match config.subprocess_timeout_secs {
            Some(secs) => "Some("@ + decimal(secs as nat) + ")"@,
            None => "None"@,
        }) + " }"@,
{
    reveal_strlit("DriverConfig");
    reveal_strlit(" { ");
    reveal_strlit(", ");
    reveal_strlit(": ");
    reveal_strlit("provider");
    reveal_strlit("api_key");
    reveal_strlit("base_url");
    reveal_strlit("skip_permissions");
    reveal_strlit("subprocess_timeout_secs");
    reveal_strlit("DriverConfig { provider: ");
    reveal_strlit(", api_key: ");
    reveal_strlit(", base_url: ");
    reveal_strlit(", skip_permissions: ");
    reveal_strlit(", subprocess_timeout_secs: ");
    reveal_strlit("\"");
    reveal_strlit("<redacted>");
    reveal_strlit("Some(");
    reveal_strlit(")");
    reveal_strlit("Some(\"<redacted>\")");
    assert("DriverConfig"@ + field_head(true, "provider"@, false) =~= "DriverConfig { provider: "@);
    assert(field_head(false, "api_key"@, false) =~= ", api_key: "@);
    assert(field_head(false, "base_url"@, false) =~= ", base_url: "@);
    assert(field_head(false, "skip_permissions"@, false) =~= ", skip_permissions: "@);
    assert(field_head(false, "subprocess_timeout_secs"@, false)
        =~= ", subprocess_timeout_secs: "@);
    assert("Some("@ + ("\""@ + "<redacted>"@ + "\""@) + ")"@ =~= "Some(\"<redacted>\")"@);
}

/// The same with a line for each field.
pub proof fn law_debug_on_lines(
    config: DriverConfig,
    provider: Seq<char>,
    base_url: Option<Seq<char>>,
)
    ensures
        config.debug_quoted(provider, base_url, true) == "DriverConfig {\n    provider: "@ + provider
            + ",\n    api_key: "@ + (if config.api_key is Some {
            "Some(\n        \"<redacted>\",\n    )"@
        } else {
            "None"@
        }) + ",\n    base_url: "@ + (match base_url {
            Some(url) => "Some(\n        "@ + url + ",\n    )"@,
            None => "None"@,
        }) + ",\n    skip_permissions: "@ + (if config.skip_permissions {
            "true"@
        } else {
            "false"@
        }) + ",\n    subprocess_timeout_secs: "@ + (match config.subprocess_timeout_secs {
            Some(secs) => "Some(\n        "@ + decimal(secs as nat) + ",\n    )"@,
            None => "None"@,
        }) + ",\n}"@,
{
    reveal_strlit("DriverConfig");
    reveal_strlit(" {\n    ");
    reveal_strlit(",\n    ");
    reveal_strlit(": ");
    reveal_strlit("provider");
    reveal_strlit("api_key");
    reveal_strlit("base_url");
    reveal_strlit("skip_permissions");
    reveal_strlit("subprocess_timeout_secs");
    reveal_strlit("DriverConfig {\n    provider: ");
    reveal_strlit(",\n    api_key: ");
    reveal_strlit(",\n    base_url: ");
    reveal_strlit(",\n    skip_permissions: ");
    reveal_strlit(",\n    subprocess_timeout_secs: ");
    reveal_strlit("\"");
    reveal_strlit("<redacted>");
    reveal_strlit("Some(\n        ");
    reveal_strlit(",\n    )");
    reveal_strlit("Some(\n        \"<redacted>\",\n    )");
    assert("DriverConfig"@ + field_head(true, "provider"@, true)
        =~= "DriverConfig {\n    provider: "@);
    assert(field_head(false, "api_key"@, true) =~= ",\n    api_key: "@);
    assert(field_head(false, "base_url"@, true) =~= ",\n    base_url: "@);
    assert(field_head(false, "skip_permissions"@, true) =~= ",\n    skip_permissions: "@);
    assert(field_head(false, "subprocess_timeout_secs"@, true)
        =~= ",\n    subprocess_timeout_secs: "@);
    assert("Some(\n        "@ + ("\""@ + "<redacted>"@ + "\""@) + ",\n    )"@
        =~= "Some(\n        \"<redacted>\",\n    )"@);
}

/// The form made of strings that are quoted already and the `Debug` form agree: with
/// the quoted forms of a configuration's own strings, the two are the same.
pub proof fn law_quoted_form_agrees(config: DriverConfig, pretty: bool)
    ensures
        config.base_url matches Some(url) ==> config.debug_quoted(
            str_debug(config.provider@),
            Some(str_debug(url@)),
            pretty,
        ) == config.debug(pretty),
        config.base_url is None ==> config.debug_quoted(
            str_debug(config.provider@),
            None,
            pretty,
        ) == config.debug(pretty),
{
}

} // verus!
