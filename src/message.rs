use vstd::prelude::*;
use vstd::string::*;
use rand::Rng;

verus! {

/// How many rationales the catalog holds.
pub const CATALOG_LEN: usize = 17;

/// The catalog of report rationales, by position.
pub open spec fn catalog_entry(i: int) -> Seq<char> {
    if i == 0 {
        "Содержит российскую пропаганду"@
    } else if i == 1 {
        "Военная пропаганда"@
    } else if i == 2 {
        "Пропаганда насилия"@
    } else if i == 3 {
        "Фейки и дезинформация о войне"@
    } else if i == 4 {
        "Дезинформация окупантов"@
    } else if i == 5 {
        "Расжигание ненависти"@
    } else if i == 6 {
        "Расжигание вражды"@
    } else if i == 7 {
        "Разжигание межнациональной розни"@
    } else if i == 8 {
        "Российсикие фейки"@
    } else if i == 9 {
        "Diversionary activity of Russian terrorism in Ukraine"@
    } else if i == 10 {
        "Russian occupants channel"@
    } else if i == 11 {
        "Fakes and dissinformation"@
    } else if i == 12 {
        "Content againts human rights"@
    } else if i == 13 {
        "СМИ подконтрольные окупантам"@
    } else if i == 14 {
        "Пророссийские и антизападные СМИ"@
    } else if i == 15 {
        "Антизападные СМИ"@
    } else {
        "Распостранение дезинформации"@
    }
}

/// The text of a report: the operator's own when given, else the catalog entry
/// that `draw` picks.
pub open spec fn report_text_of(message_override: Option<Seq<char>>, draw: int) -> Seq<char> {
    match message_override {
        Some(t) => t,
        None => catalog_entry(draw),
    }
}

fn catalog_str(i: usize) -> (r: &'static str)
    requires
        i < CATALOG_LEN,
    ensures
        r@ == catalog_entry(i as int),
{
    match i {
        0 => "Содержит российскую пропаганду",
        1 => "Военная пропаганда",
        2 => "Пропаганда насилия",
        3 => "Фейки и дезинформация о войне",
        4 => "Дезинформация окупантов",
        5 => "Расжигание ненависти",
        6 => "Расжигание вражды",
        7 => "Разжигание межнациональной розни",
        8 => "Российсикие фейки",
        9 => "Diversionary activity of Russian terrorism in Ukraine",
        10 => "Russian occupants channel",
        11 => "Fakes and dissinformation",
        12 => "Content againts human rights",
        13 => "СМИ подконтрольные окупантам",
        14 => "Пророссийские и антизападные СМИ",
        15 => "Антизападные СМИ",
        _ => "Распостранение дезинформации",
    }
}

/// Relies on rand::thread_rng with Rng::gen_range: a draw in `0..n`, which panics
/// only on an empty range.
#[verifier::external_body]
fn random_index(n: usize) -> (r: usize)
    requires
        n > 0,
    ensures
        r < n,
{
    rand::thread_rng().gen_range(0..n)
}

/// The report text for a given draw from the catalog.
pub fn report_text(message_override: &Option<String>, draw: usize) -> (r: String)
    requires
        message_override is Some || draw < CATALOG_LEN,
    ensures
        r@ == report_text_of(
            match message_override {
                Some(t) => Some(t@),
                None => None,
            },
            draw as int,
        ),
{
    match message_override {
        Some(t) => t.clone(),
        None => String::from_str(catalog_str(draw)),
    }
}

/// The report text for one submission: the operator's own when given, else a
/// catalog entry drawn uniformly at random.
pub fn choose_report_text(message_override: &Option<String>) -> (r: String)
    ensures
        match message_override {
            Some(t) => r@ == t@,
            None => exists|i: int| 0 <= i < CATALOG_LEN && r@ == catalog_entry(i),
        },
{
    let draw = match message_override {
        Some(_) => 0,
        None => random_index(CATALOG_LEN),
    };
    report_text(message_override, draw)
}

/// With an override, every draw gives exactly the override; without one, every
/// catalog entry is the result of some draw.
pub proof fn lemma_report_text_choice(message_override: Option<Seq<char>>, i: int)
    requires
        0 <= i < CATALOG_LEN,
    ensures
        message_override is Some ==> forall|d: int|
            #![trigger report_text_of(message_override, d)]
            report_text_of(message_override, d) == message_override->Some_0,
        message_override is None ==> exists|d: int|
            0 <= d < CATALOG_LEN && #[trigger] report_text_of(message_override, d)
                == catalog_entry(i),
{
    if message_override is None {
        assert(report_text_of(message_override, i) == catalog_entry(i));
    }
}

} // verus!
