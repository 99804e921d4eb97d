use vstd::prelude::*;

use crate::cargo::{binary_path_key, primary_package_key};
use crate::directive::{
    cfg_line, legacy_search_prefix, link_search_line, Directive, LinkSearchKind, LinkTarget,
};
use crate::env::{lookup, LookupError};
use crate::sink::stream_text;

verus! {

/// `s` holds no line break.
pub open spec fn no_break(s: Seq<char>) -> bool {
    forall|i: int| 0 <= i < s.len() ==> s[i] != '\n'
}

/// `s` holds no double quote.
pub open spec fn no_quote(s: Seq<char>) -> bool {
    forall|i: int| 0 <= i < s.len() ==> s[i] != '"'
}

/// No text field of `d` holds a line break.
pub open spec fn fields_without_break(d: Directive) -> bool {
    match d {
        Directive::RerunIfChanged { path } => no_break(path@),
        Directive::RerunIfEnvChanged { var } => no_break(var@),
        Directive::Warning { message } => no_break(message@),
        Directive::Metadata { key, value } => no_break(key@) && no_break(value@),
        Directive::LinkArg { flag, target } => no_break(flag@) && match target {
            LinkTarget::Bin(bin) => no_break(bin@),
            _ => true,
        },
        Directive::LinkLib { lib } => no_break(lib@),
        Directive::LinkSearch { path, kind } => no_break(path@),
        Directive::Flags { flags } => no_break(flags@),
        Directive::Cfg { key, value } => no_break(key@) && match value {
            Some(v) => no_break(v@),
            None => true,
        },
        Directive::CheckCfg { cfg } => no_break(cfg@),
        Directive::Env { var, value } => no_break(var@) && no_break(value@),
    }
}

proof fn lemma_concat_no_break(a: Seq<char>, b: Seq<char>)
    requires
        no_break(a),
        no_break(b),
    ensures
        no_break(a + b),
{
    assert forall|i: int| 0 <= i < (a + b).len() implies (a + b)[i] != '\n' by {
        if i >= a.len() {
            assert((a + b)[i] == b[i - a.len()]);
        }
    }
}

proof fn lemma_literals_no_break()
    ensures
        no_break("cargo::rerun-if-changed="@),
        no_break("cargo::rerun-if-env-changed="@),
        no_break("cargo::warning="@),
        no_break("cargo::metadata="@),
        no_break("cargo::rustc-link-arg="@),
        no_break("cargo::rustc-link-arg-bin="@),
        no_break("cargo::rustc-link-arg-bins="@),
        no_break("cargo::rustc-link-arg-tests="@),
        no_break("cargo::rustc-link-arg-examples="@),
        no_break("cargo::rustc-cdylib-link-arg="@),
        no_break("cargo::rustc-link-lib="@),
        no_break("cargo::rustc-link-search="@),
        no_break("rustc-link-search="@),
        no_break("cargo::rustc-flags="@),
        no_break("cargo::rustc-cfg="@),
        no_break("cargo::rustc-check-cfg="@),
        no_break("cargo::rustc-env="@),
        no_break("="@),
        no_break("=\""@),
        no_break("\""@),
        no_break("dependency"@),
        no_break("crate"@),
        no_break("native"@),
        no_break("framework"@),
        no_break("all"@),
{
    reveal_strlit("cargo::rerun-if-changed=");
    reveal_strlit("cargo::rerun-if-env-changed=");
    reveal_strlit("cargo::warning=");
    reveal_strlit("cargo::metadata=");
    reveal_strlit("cargo::rustc-link-arg=");
    reveal_strlit("cargo::rustc-link-arg-bin=");
    reveal_strlit("cargo::rustc-link-arg-bins=");
    reveal_strlit("cargo::rustc-link-arg-tests=");
    reveal_strlit("cargo::rustc-link-arg-examples=");
    reveal_strlit("cargo::rustc-cdylib-link-arg=");
    reveal_strlit("cargo::rustc-link-lib=");
    reveal_strlit("cargo::rustc-link-search=");
    reveal_strlit("rustc-link-search=");
    reveal_strlit("cargo::rustc-flags=");
    reveal_strlit("cargo::rustc-cfg=");
    reveal_strlit("cargo::rustc-check-cfg=");
    reveal_strlit("cargo::rustc-env=");
    reveal_strlit("=");
    reveal_strlit("=\"");
    reveal_strlit("\"");
    reveal_strlit("dependency");
    reveal_strlit("crate");
    reveal_strlit("native");
    reveal_strlit("framework");
    reveal_strlit("all");
}

/// Every directive is encoded as exactly one line: when its fields and the
/// link-search prefix hold no line break, neither does its line, and emitting
/// it adds that line and one terminator to the output stream.
pub proof fn law_directive_is_one_line(d: Directive, prefix: Seq<char>, before: Seq<Seq<char>>)
    requires
        fields_without_break(d),
        no_break(prefix),
    ensures
        no_break(d.spec_line_with(prefix)),
        stream_text(before.push(d.spec_line_with(prefix))) == stream_text(before)
            + d.spec_line_with(prefix) + "\n"@,
{
    lemma_literals_no_break();
    match d {
        Directive::RerunIfChanged { path } => {
            lemma_concat_no_break("cargo::rerun-if-changed="@, path@);
        },
        Directive::RerunIfEnvChanged { var } => {
            lemma_concat_no_break("cargo::rerun-if-env-changed="@, var@);
        },
        Directive::Warning { message } => {
            lemma_concat_no_break("cargo::warning="@, message@);
        },
        Directive::Metadata { key, value } => {
            lemma_concat_no_break("cargo::metadata="@, key@);
            lemma_concat_no_break("cargo::metadata="@ + key@, "="@);
            lemma_concat_no_break("cargo::metadata="@ + key@ + "="@, value@);
        },
        Directive::LinkArg { flag, target } => {
            match target {
                LinkTarget::Unscoped => lemma_concat_no_break("cargo::rustc-link-arg="@, flag@),
                LinkTarget::Bin(bin) => {
                    lemma_concat_no_break("cargo::rustc-link-arg-bin="@, bin@);
                    lemma_concat_no_break("cargo::rustc-link-arg-bin="@ + bin@, "="@);
                    lemma_concat_no_break("cargo::rustc-link-arg-bin="@ + bin@ + "="@, flag@);
                },
                LinkTarget::Bins => lemma_concat_no_break("cargo::rustc-link-arg-bins="@, flag@),
                LinkTarget::Tests => lemma_concat_no_break("cargo::rustc-link-arg-tests="@, flag@),
                LinkTarget::Examples => lemma_concat_no_break(
                    "cargo::rustc-link-arg-examples="@,
                    flag@,
                ),
                LinkTarget::Cdylib => lemma_concat_no_break(
                    "cargo::rustc-cdylib-link-arg="@,
                    flag@,
                ),
            }
        },
        Directive::LinkLib { lib } => {
            lemma_concat_no_break("cargo::rustc-link-lib="@, lib@);
        },
        Directive::LinkSearch { path, kind } => {
            match kind {
                Some(k) => {
                    lemma_concat_no_break("cargo::rustc-link-search="@, k.spec_text());
                    lemma_concat_no_break("cargo::rustc-link-search="@ + k.spec_text(), "="@);
                    lemma_concat_no_break(
                        "cargo::rustc-link-search="@ + k.spec_text() + "="@,
                        path@,
                    );
                },
                None => {
                    lemma_concat_no_break(prefix, "rustc-link-search="@);
                    lemma_concat_no_break(prefix + "rustc-link-search="@, path@);
                },
            }
        },
        Directive::Flags { flags } => {
            lemma_concat_no_break("cargo::rustc-flags="@, flags@);
        },
        Directive::Cfg { key, value } => {
            lemma_concat_no_break("cargo::rustc-cfg="@, key@);
            match value {
                Some(v) => {
                    lemma_concat_no_break("cargo::rustc-cfg="@ + key@, "=\""@);
                    lemma_concat_no_break("cargo::rustc-cfg="@ + key@ + "=\""@, v@);
                    lemma_concat_no_break("cargo::rustc-cfg="@ + key@ + "=\""@ + v@, "\""@);
                },
                None => {},
            }
        },
        Directive::CheckCfg { cfg } => {
            lemma_concat_no_break("cargo::rustc-check-cfg="@, cfg@);
        },
        Directive::Env { var, value } => {
            lemma_concat_no_break("cargo::rustc-env="@, var@);
            lemma_concat_no_break("cargo::rustc-env="@ + var@, "="@);
            lemma_concat_no_break("cargo::rustc-env="@ + var@ + "="@, value@);
        },
    }
    assert(before.push(d.spec_line_with(prefix)).drop_last() =~= before);
}

/// A cfg line with a value ends in a double quote and has one right after the
/// `=` that follows the key; a cfg line without a value holds no double quote
/// unless its key does.
pub proof fn law_cfg_quoting(key: Seq<char>, value: Option<Seq<char>>)
    ensures
        value is Some ==> {
            let line = cfg_line(key, value);
            let n = (("cargo::rustc-cfg="@).len() + key.len()) as int;
            &&& line.last() == '"'
            &&& line[n] == '='
            &&& line[n + 1] == '"'
            &&& line.subrange(n + 2, line.len() - 1) == value->0
        },
        value is None && no_quote(key) ==> no_quote(cfg_line(key, value)),
{
    reveal_strlit("cargo::rustc-cfg=");
    reveal_strlit("=\"");
    reveal_strlit("\"");
    let h = "cargo::rustc-cfg="@;
    match value {
        Some(v) => {
            let line = cfg_line(key, value);
            assert(line =~= h + key + "=\""@ + v + "\""@);
            let n = (h.len() + key.len()) as int;
            assert(line.subrange(n + 2, line.len() - 1) =~= v);
        },
        None => {
            if no_quote(key) {
                let line = cfg_line(key, value);
                assert forall|i: int| 0 <= i < line.len() implies line[i] != '"' by {
                    if i >= h.len() {
                        assert(line[i] == key[i - h.len()]);
                    }
                }
            }
        },
    }
}

/// A link-search line with a kind starts with the `cargo::` prefix that every
/// other directive uses; one without a kind starts with the legacy `carg::`
/// prefix instead, and so not with `cargo::`.
pub proof fn law_link_search_prefixes(path: Seq<char>, kind: Option<LinkSearchKind>)
    ensures
        kind is Some ==> "cargo::rustc-link-search="@.is_prefix_of(
            link_search_line(path, kind, legacy_search_prefix()),
        ),
        kind is None ==> "carg::rustc-link-search="@.is_prefix_of(
            link_search_line(path, kind, legacy_search_prefix()),
        ),
        kind is None ==> !"cargo::"@.is_prefix_of(
            link_search_line(path, kind, legacy_search_prefix()),
        ),
{
    reveal_strlit("cargo::rustc-link-search=");
    reveal_strlit("carg::rustc-link-search=");
    reveal_strlit("rustc-link-search=");
    reveal_strlit("carg::");
    reveal_strlit("cargo::");
    reveal_strlit("=");
    let line = link_search_line(path, kind, legacy_search_prefix());
    match kind {
        Some(k) => {
            assert(line.subrange(0, ("cargo::rustc-link-search="@).len() as int)
                =~= "cargo::rustc-link-search="@);
        },
        None => {
            assert(line.subrange(0, ("carg::rustc-link-search="@).len() as int)
                =~= "carg::rustc-link-search="@);
            assert(line[4] == ':');
            assert("cargo::"@[4] == 'o');
        },
    }
}

/// Reading a variable that is unset fails with `NotPresent`; reading one set
/// to the empty string succeeds with the empty string: what counts is
/// presence, not the value.
pub proof fn law_presence_not_value(env: Map<Seq<char>, Option<Seq<char>>>, name: Seq<char>)
    ensures
        lookup(env.remove(name), name) == Err::<Seq<char>, LookupError>(LookupError::NotPresent),
        lookup(env.insert(name, Some(Seq::empty())), name) == Ok::<Seq<char>, LookupError>(
            Seq::empty(),
        ),
{
}

/// The primary-package marker counts when it is set to any value, the empty
/// string or one that is not valid Unicode included, and not when it is
/// unset, whatever reading it as text gives.
pub proof fn law_primary_marker_presence(env: Map<Seq<char>, Option<Seq<char>>>)
    ensures
        env.insert(primary_package_key(), Some(Seq::empty())).contains_key(primary_package_key()),
        env.insert(primary_package_key(), None).contains_key(primary_package_key()),
        lookup(env.insert(primary_package_key(), None), primary_package_key()) == Err::<
            Seq<char>,
            LookupError,
        >(LookupError::InvalidEncoding),
        !env.remove(primary_package_key()).contains_key(primary_package_key()),
{
}

/// The variable read for a binary's executable is the fixed prefix followed
/// by the binary's name as it is: two names that differ, even only in case,
/// are read from two variables, and when that exact variable is unset the
/// read fails with `NotPresent`, whatever else is set.
pub proof fn law_binary_key_is_exact(
    env: Map<Seq<char>, Option<Seq<char>>>,
    a: Seq<char>,
    b: Seq<char>,
)
    ensures
        a != b ==> binary_path_key(a) != binary_path_key(b),
        !env.contains_key(binary_path_key(a)) ==> lookup(env, binary_path_key(a)) == Err::<
            Seq<char>,
            LookupError,
        >(LookupError::NotPresent),
{
    let p = "CARGO_BIN_EXE_"@;
    if a != b {
        if binary_path_key(a) == binary_path_key(b) {
            assert(a =~= binary_path_key(a).subrange(p.len() as int, binary_path_key(a).len() as int));
            assert(b =~= binary_path_key(b).subrange(p.len() as int, binary_path_key(b).len() as int));
        }
    }
}

} // verus!
