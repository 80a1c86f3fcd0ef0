//! What is fixed when the launcher is built: where the runtime, the jars and the splash
//! image are installed, the main class, and the way libraries are searched.

use crate::facts::{lemma_answers_stay, stays, Facts, Knowledge, Query, Topic};
use crate::journal::{glue3, settled, Journal, Level, NoteView, Outcome};
use crate::text::{is_blank, str_eq, trim};
use std::str::FromStr;
use vstd::prelude::*;
use vstd::string::*;

verus! {

/// Directory of the runtime that is used when nothing else is found.
pub const JRE: &'static str = "/usr/lib/jvm/jre";

/// The class whose `main` the virtual machine runs.
pub const MAIN_CLASS: &'static str = "net.sourceforge.jnlp.runtime.Boot";

/// Installed location of the splash image.
pub const SPLASH_PNG: &'static str = "/usr/share/icedtea-web/javaws_splash.png";

/// Installed location of the launcher's own jar.
pub const JAVAWS_JAR: &'static str = "/usr/share/icedtea-web/javaws.jar";

/// Name of the library search mode that the build chose.
pub const ITW_LIBS: &'static str = "DISTRIBUTION";

/// Installed location of the file of arguments that a modular runtime needs.
pub const MODULARJDK_ARGS_LOCATION: &'static str = "/usr/share/icedtea-web/itw-modularjdk.args";

/// Installed location of the optional HTML parser.
pub const TAGSOUP_JAR: &'static str = "/usr/share/java/tagsoup.jar";

/// Installed location of the optional script engine.
pub const RHINO_JAR: &'static str = "/usr/share/java/js.jar";

/// Installed location of the optional shortcut library; blank, as the build sets none.
pub const MSLINKS_JAR: &'static str = "";

/// Installed location of the optional JSON library; blank, as the build sets none.
pub const GSON_JAR: &'static str = "";

/// Installed location of the optional address library; blank, as the build sets none.
pub const IPADDRESS_JAR: &'static str = "";

/// Directory of the runtime that is used when nothing else is found.
pub fn get_jre() -> (r: &'static str)
    ensures
        r@ == JRE@,
{
    JRE
}

/// The class whose `main` the virtual machine runs.
pub fn get_main() -> (r: &'static str)
    ensures
        r@ == MAIN_CLASS@,
{
    MAIN_CLASS
}

/// Installed location of the splash image.
pub fn get_splash() -> (r: &'static str)
    ensures
        r@ == SPLASH_PNG@,
{
    SPLASH_PNG
}

/// Installed location of the launcher's own jar.
pub fn get_javaws() -> (r: &'static str)
    ensures
        r@ == JAVAWS_JAR@,
{
    JAVAWS_JAR
}

/// Name of the library search mode that the build chose.
pub fn get_itwlibsearch() -> (r: &'static str)
    ensures
        r@ == ITW_LIBS@,
{
    ITW_LIBS
}

/// Installed location of the file of arguments that a modular runtime needs.
pub fn get_argsfile() -> (r: &'static str)
    ensures
        r@ == MODULARJDK_ARGS_LOCATION@,
{
    MODULARJDK_ARGS_LOCATION
}

/// A location that is set but blank counts as not set.
pub open spec fn sanitized(candidate: Option<Seq<char>>) -> Option<Seq<char>> {
    match candidate {
        Some(s) => if is_blank(s) {
            None
        } else {
            candidate
        },
        None => None,
    }
}

/// Drops a location that is blank.
pub fn sanitize(candidate: Option<&'static str>) -> (r: Option<&'static str>)
    ensures
        r.deep_view() == sanitized(candidate.deep_view()),
{
    match candidate {
        Some(s) => {
            if trim(s).as_str().unicode_len() > 0 {
                candidate
            } else {
                None
            }
        },
        None => None,
    }
}

/// Where the optional HTML parser is installed, if the build names a place.
pub fn get_tagsoup() -> (r: Option<&'static str>)
    ensures
        r.deep_view() == sanitized(Some(TAGSOUP_JAR@)),
{
    sanitize(Some(TAGSOUP_JAR))
}

/// Where the optional script engine is installed, if the build names a place.
pub fn get_rhino() -> (r: Option<&'static str>)
    ensures
        r.deep_view() == sanitized(Some(RHINO_JAR@)),
{
    sanitize(Some(RHINO_JAR))
}

/// Where the optional shortcut library is installed, if the build names a place.
pub fn get_mslinks() -> (r: Option<&'static str>)
    ensures
        r.deep_view() == sanitized(Some(MSLINKS_JAR@)),
{
    sanitize(Some(MSLINKS_JAR))
}

/// Where the optional JSON library is installed, if the build names a place.
pub fn get_gson() -> (r: Option<&'static str>)
    ensures
        r.deep_view() == sanitized(Some(GSON_JAR@)),
{
    sanitize(Some(GSON_JAR))
}

/// Where the optional address library is installed, if the build names a place.
pub fn get_ipaddress() -> (r: Option<&'static str>)
    ensures
        r.deep_view() == sanitized(Some(IPADDRESS_JAR@)),
{
    sanitize(Some(IPADDRESS_JAR))
}

/// How the launcher looks for its libraries.
#[allow(non_camel_case_types)]
#[derive(Clone, Copy, PartialEq, Eq, Debug, Structural)]
pub enum ItwLibSearch {
    /// Beside the launcher.
    BUNDLED,
    /// Where the distribution installed them.
    DISTRIBUTION,
    /// Beside the launcher, and the runtime is looked for there too.
    EMBEDDED,
}

/// A text that names no search mode.
#[derive(Debug, PartialEq, Eq)]
pub struct ParseItwLibSearch {
    pub _priv: (),
}

/// The mode that a text names. Names are matched exactly, letter for letter.
pub open spec fn mode_named(s: Seq<char>) -> Option<ItwLibSearch> {
    if s == "EMBEDDED"@ {
        Some(ItwLibSearch::EMBEDDED)
    } else if s == "BUNDLED"@ {
        Some(ItwLibSearch::BUNDLED)
    } else if s == "DISTRIBUTION"@ {
        Some(ItwLibSearch::DISTRIBUTION)
    } else {
        None
    }
}

/// The name of a mode.
pub open spec fn mode_name(mode: ItwLibSearch) -> Seq<char> {
    match mode {
        ItwLibSearch::BUNDLED => "BUNDLED"@,
        ItwLibSearch::DISTRIBUTION => "DISTRIBUTION"@,
        ItwLibSearch::EMBEDDED => "EMBEDDED"@,
    }
}

/// A mode is read back from its name: the names of the modes differ from each other.
pub proof fn law_mode_is_read_back_from_its_name(mode: ItwLibSearch)
    ensures
        mode_named(mode_name(mode)) == Some(mode),
{
    reveal_strlit("EMBEDDED");
    reveal_strlit("BUNDLED");
    reveal_strlit("DISTRIBUTION");
    assert("EMBEDDED"@.len() == 8);
    assert("BUNDLED"@.len() == 7);
    assert("DISTRIBUTION"@.len() == 12);
}

impl ItwLibSearch {
    /// Reads the name of a mode.
    pub fn parse(sstr: &str) -> (r: Result<ItwLibSearch, ParseItwLibSearch>)
        ensures
            mode_named(sstr@) == match r {
                Ok(m) => Some(m),
                Err(_) => None,
            },
    {
        if str_eq(sstr, "EMBEDDED") {
            return Ok(ItwLibSearch::EMBEDDED);
        }
        if str_eq(sstr, "BUNDLED") {
            return Ok(ItwLibSearch::BUNDLED);
        }
        if str_eq(sstr, "DISTRIBUTION") {
            return Ok(ItwLibSearch::DISTRIBUTION);
        }
        Err(ParseItwLibSearch { _priv: () })
    }

    /// The name of the mode.
    pub fn name(&self) -> (r: &'static str)
        ensures
            r@ == mode_name(*self),
    {
        match self {
            ItwLibSearch::BUNDLED => "BUNDLED",
            ItwLibSearch::DISTRIBUTION => "DISTRIBUTION",
            ItwLibSearch::EMBEDDED => "EMBEDDED",
        }
    }
}

impl FromStr for ItwLibSearch {
    type Err = ParseItwLibSearch;

    /// Reads the name of a mode: the mode that the text names, letter for letter, or
    /// the error where it names none.
    fn from_str(sstr: &str) -> (r: Result<ItwLibSearch, ParseItwLibSearch>)
        ensures
            mode_named(sstr@) == match r {
                Ok(m) => Some(m),
                Err(_) => None,
            },
    {
        ItwLibSearch::parse(sstr)
    }
}

impl View for ItwLibSearch {
    type V = ItwLibSearch;

    open spec fn view(&self) -> ItwLibSearch {
        *self
    }
}

impl DeepView for ItwLibSearch {
    type V = ItwLibSearch;

    open spec fn deep_view(&self) -> ItwLibSearch {
        *self
    }
}

/// The mode that is used: the override where it names a mode, else what the build chose.
/// `None` where neither names a mode: such a build is broken.
pub open spec fn chosen_mode(over: Option<Seq<char>>, built_in: Seq<char>) -> Option<
    ItwLibSearch,
> {
    match over {
        Some(v) => if mode_named(v) is Some {
            mode_named(v)
        } else {
            mode_named(built_in)
        },
        None => mode_named(built_in),
    }
}

/// The warning about an override that names no mode.
pub open spec fn invalid_override_note(v: Seq<char>) -> NoteView {
    (
        Level::Important,
        "ITW-LIBS provided, but have invalid value of "@ + v
            + ". Use BUNDLED, DISTRIBUTION or EMBEDDED"@,
    )
}

/// The journal after the mode was chosen: an override that names no mode is warned about.
pub open spec fn journal_after_choice(over: Option<Seq<char>>, log: Seq<NoteView>) -> Seq<
    NoteView,
> {
    match over {
        Some(v) => if mode_named(v) is Some {
            log
        } else {
            log.push(invalid_override_note(v))
        },
        None => log,
    }
}

/// Chooses the search mode from the override found in the environment, if any, and the name
/// that the build chose. An override that names no mode is warned about and passed over; a
/// built-in name that names no mode is an error of the build and is reported as such.
pub fn libsearch_from(over: Option<&str>, built_in: &str, journal: &mut Journal) -> (r: Result<
    ItwLibSearch,
    ParseItwLibSearch,
>)
    ensures
        chosen_mode(over.deep_view(), built_in@) == match r {
            Ok(m) => Some(m),
            Err(_) => None,
        },
        final(journal)@ == journal_after_choice(over.deep_view(), old(journal)@),
{
    match over {
        Some(result_of_override_var) => {
            match ItwLibSearch::parse(result_of_override_var) {
                Ok(result_of_override_to_enum) => {
                    return Ok(result_of_override_to_enum);
                },
                Err(_) => {
                    let info = glue3(
                        "ITW-LIBS provided, but have invalid value of ",
                        result_of_override_var,
                        ". Use BUNDLED, DISTRIBUTION or EMBEDDED",
                    );
                    journal.important(info.as_str());
                },
            }
        },
        None => {},
    }
    ItwLibSearch::parse(built_in)
}

/// The search mode of this run and the journal after it was chosen.
pub open spec fn libsearch(k: Knowledge, log: Seq<NoteView>) -> Outcome<ItwLibSearch> {
    match k.text(Topic::EnvVar, "ITW_LIBS"@) {
        Err(q) => Err(q),
        Ok(over) => Ok((chosen_mode(over, ITW_LIBS@).unwrap(), journal_after_choice(over, log))),
    }
}

/// The library search mode of this run: what the variable `ITW_LIBS` names, or else what
/// the build chose.
pub fn get_libsearch(facts: &Facts, journal: &mut Journal) -> (r: Result<ItwLibSearch, Query>)
    ensures
        settled(r, old(journal)@, final(journal)@, libsearch(facts@, old(journal)@)),
{
    let over = facts.text(Topic::EnvVar, "ITW_LIBS")?;
    let chosen = match &over {
        Some(v) => libsearch_from(Some(v.as_str()), get_itwlibsearch(), journal),
        None => libsearch_from(None, get_itwlibsearch(), journal),
    };
    match chosen {
        Ok(v) => Ok(v),
        Err(_) => {
            proof {
                law_mode_is_read_back_from_its_name(ItwLibSearch::DISTRIBUTION);
            }
            vstd::pervasive::unreached()
        },
    }
}

/// The search mode stays when the table learns more.
pub proof fn lemma_libsearch_stays(k: Knowledge, more: Knowledge, log: Seq<NoteView>)
    requires
        k.within(more),
    ensures
        stays(libsearch(k, log), libsearch(more, log)),
{
    lemma_answers_stay(k, more, Topic::EnvVar, "ITW_LIBS"@);
}

} // verus!
