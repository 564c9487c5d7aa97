//! Small talk: the remarks that the mascot makes when it is clicked, and the
//! advice that goes with a low battery. Which one is said is left to chance.

use crate::text::{to_chars, to_string};
use rand::prelude::IndexedRandom;
use vstd::prelude::*;
use vstd::string::StringExecFns;

verus! {

/// The name under which the mascot sends its remarks.
pub const MASCOT: &'static str = "cynide";

/// A remark of the mascot: a title and a body.
#[derive(Clone, Debug, PartialEq, Eq)]
pub struct Remark {
    pub title: String,
    pub body: String,
}

impl View for Remark {
    type V = (Seq<char>, Seq<char>);

    open spec fn view(&self) -> (Seq<char>, Seq<char>) {
        (self.title@, self.body@)
    }
}

/// `IndexedRandom::choose` of `rand` on a slice, with the generator of the
/// thread: `None` for an empty slice, else a reference to one of the
/// elements, picked at random.
#[verifier::external_body]
fn choose_from<T>(items: &[T]) -> (picked: Option<&T>)
    ensures
        items@.len() == 0 ==> picked is None,
        items@.len() > 0 ==> picked is Some && items@.contains(*picked->0),
{
    items.choose(&mut rand::rng())
}

/// The remarks of the mascot, as pairs of title and body.
pub open spec fn remark_texts() -> Seq<(Seq<char>, Seq<char>)> {
    seq![
        ("hello"@, "im cynide from cynageOS"@),
        ("Tips:"@, "use cynidectl to dig deeper"@),
        ("alert"@, "system is stable"@),
        ("Oh do you know Bob the builder ?"@, "by anyy chance ???"@),
        ("Try pressing the wallpaper tab x times"@, " 2x + 5 = 15 "@),
        ("'penglins'"@, "not a typo"@),
        (
            "I'm a repetitive task, you see,My steps are the same, a sequence to be.The number of times,"@,
            "a personal clue is the day you arrived"@,
        ),
        ("make a cock a doodle do"@, "try super + g"@),
        ("cp77"@, "is sooo coool"@),
        ("Hint:"@, "Settings"@),
        ("CYNAGEOSSS"@, "is thaaa besstttt ?"@),
        ("Fun Fact"@, "capsule is written in rust"@),
        ("A strand on the beach ?"@, "Thats horrific"@),
    ]
}

/// The views of `remarks`.
pub open spec fn remark_views(remarks: Seq<Remark>) -> Seq<(Seq<char>, Seq<char>)> {
    remarks.map_values(|r: Remark| r@)
}

fn remark(title: &str, body: &str) -> (r: Remark)
    ensures
        r@ == (title@, body@),
{
    Remark { title: String::from_str(title), body: String::from_str(body) }
}

/// The remarks of the mascot: [`remark_texts`].
pub fn remarks() -> (all: Vec<Remark>)
    ensures
        remark_views(all@) == remark_texts(),
{
    let mut all: Vec<Remark> = Vec::new();
    all.push(remark("hello", "im cynide from cynageOS"));
    all.push(remark("Tips:", "use cynidectl to dig deeper"));
    all.push(remark("alert", "system is stable"));
    all.push(remark("Oh do you know Bob the builder ?", "by anyy chance ???"));
    all.push(remark("Try pressing the wallpaper tab x times", " 2x + 5 = 15 "));
    all.push(remark("'penglins'", "not a typo"));
    all.push(
        remark(
            "I'm a repetitive task, you see,My steps are the same, a sequence to be.The number of times,",
            "a personal clue is the day you arrived",
        ),
    );
    all.push(remark("make a cock a doodle do", "try super + g"));
    all.push(remark("cp77", "is sooo coool"));
    all.push(remark("Hint:", "Settings"));
    all.push(remark("CYNAGEOSSS", "is thaaa besstttt ?"));
    all.push(remark("Fun Fact", "capsule is written in rust"));
    all.push(remark("A strand on the beach ?", "Thats horrific"));
    assert(remark_views(all@) =~= remark_texts());
    all
}

/// The arguments with which the notifier is run to say `remark`: the
/// mascot's name as the sender, then title and body.
pub open spec fn notice_texts(remark: (Seq<char>, Seq<char>)) -> Seq<Seq<char>> {
    seq!["--app-name="@ + MASCOT@, remark.0, remark.1]
}

/// Computes [`notice_texts`].
pub fn notice_arguments(remark: &Remark) -> (arguments: Vec<String>)
    ensures
        arguments@.map_values(|s: String| s@) == notice_texts(remark@),
{
    let mut sender = to_chars("--app-name=");
    let mut name = to_chars(MASCOT);
    sender.append(&mut name);
    let mut arguments: Vec<String> = Vec::new();
    arguments.push(to_string(sender.as_slice()));
    arguments.push(remark.title.clone());
    arguments.push(remark.body.clone());
    assert(arguments@.map_values(|s: String| s@) =~= notice_texts(remark@));
    arguments
}

/// The mascot was clicked: one of `remarks` is picked at random, and the
/// arguments to say it are returned; `None` where there is no remark.
pub fn on_mascot_click(remarks: &Vec<Remark>) -> (arguments: Option<Vec<String>>)
    ensures
        remarks@.len() == 0 <==> arguments is None,
        arguments matches Some(a) ==> exists|i: int|
            0 <= i < remarks@.len() && a@.map_values(|s: String| s@) == notice_texts(
                #[trigger] remarks@[i]@,
            ),
{
    match choose_from(remarks.as_slice()) {
        Some(remark) => {
            proof {
                let i = choose|i: int| 0 <= i < remarks@.len() && remarks@[i] == *remark;
                assert(remarks@[i]@ == remark@);
            }
            Some(notice_arguments(remark))
        },
        None => None,
    }
}

/// The advice for a low battery, apart from the obvious.
pub open spec fn advice_texts() -> Seq<Seq<char>> {
    seq![
        "get a nuclear reactor"@,
        "build a solar farm"@,
        "install a hamster-powered turbine"@,
        "fly to the moon"@,
        "get static from cat fur"@,
        "harness lightning"@,
        "plug into the Matrix"@,
    ]
}

/// The advice for a low battery: [`advice_texts`].
pub fn advice() -> (all: Vec<String>)
    ensures
        all@.map_values(|s: String| s@) == advice_texts(),
{
    let mut all: Vec<String> = Vec::new();
    all.push(String::from_str("get a nuclear reactor"));
    all.push(String::from_str("build a solar farm"));
    all.push(String::from_str("install a hamster-powered turbine"));
    all.push(String::from_str("fly to the moon"));
    all.push(String::from_str("get static from cat fur"));
    all.push(String::from_str("harness lightning"));
    all.push(String::from_str("plug into the Matrix"));
    assert(all@.map_values(|s: String| s@) =~= advice_texts());
    all
}

/// The line under the warning of a low battery: `Connect charger or `,
/// followed by `advice`, or by `do nothing` where there is none.
pub open spec fn subtitle_text(advice: Option<Seq<char>>) -> Seq<char> {
    "Connect charger or "@ + (match advice {
        Some(a) => a,
        None => "do nothing"@,
    })
}

/// Computes [`subtitle_text`].
pub fn subtitle_with(advice: Option<&String>) -> (text: String)
    ensures
        text@ == subtitle_text(
            match advice {
                Some(a) => Some(a@),
                None => None,
            },
        ),
{
    let mut out = to_chars("Connect charger or ");
    let mut tail = match advice {
        Some(a) => to_chars(a.as_str()),
        None => to_chars("do nothing"),
    };
    out.append(&mut tail);
    to_string(out.as_slice())
}

/// The line under the warning of a low battery, with one piece of advice
/// picked at random.
pub fn low_battery_subtitle() -> (text: String)
    ensures
        exists|i: int|
            0 <= i < advice_texts().len() && text@ == subtitle_text(
                Some(#[trigger] advice_texts()[i]),
            ),
{
    let all = advice();
    let picked = choose_from(all.as_slice());
    proof {
        let views = all@.map_values(|s: String| s@);
        assert(views.len() == 7);
        let a = *picked->0;
        let i = choose|i: int| 0 <= i < all@.len() && all@[i] == a;
        assert(views[i] == a@);
    }
    subtitle_with(picked)
}

} // verus!
