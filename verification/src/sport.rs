//! The favourite sport of a person: one of a fixed list of known sports, or
//! any other text.

use crate::text::{is_plain, normalize, normalized, same_text};
use vstd::prelude::*;

verus! {

/// A sport. The known sports have a label and an icon of their own; any
/// other sport is kept as the text that named it.
#[derive(Debug, Clone, PartialEq, Eq, Hash)]
pub enum Sport {
    Baseball,
    Soccer,
    Basketball,
    Tennis,
    Golf,
    Hockey,
    Cricket,
    Rugby,
    Handball,
    Football,
    Volleyball,
    WaterPolo,
    Equestrian,
    Swimming,
    Running,
    Cycling,
    Skating,
    Skateboarding,
    Surfing,
    Skiing,
    Snowboarding,
    Rowing,
    Wrestling,
    Other(String),
}

/// The model of a [`Sport`]: the same cases, the free text as a sequence of
/// characters.
pub enum SportView {
    Baseball,
    Soccer,
    Basketball,
    Tennis,
    Golf,
    Hockey,
    Cricket,
    Rugby,
    Handball,
    Football,
    Volleyball,
    WaterPolo,
    Equestrian,
    Swimming,
    Running,
    Cycling,
    Skating,
    Skateboarding,
    Surfing,
    Skiing,
    Snowboarding,
    Rowing,
    Wrestling,
    Other(Seq<char>),
}

impl View for Sport {
    type V = SportView;

    open spec fn view(&self) -> SportView {
        match self {
            Sport::Baseball => SportView::Baseball,
            Sport::Soccer => SportView::Soccer,
            Sport::Basketball => SportView::Basketball,
            Sport::Tennis => SportView::Tennis,
            Sport::Golf => SportView::Golf,
            Sport::Hockey => SportView::Hockey,
            Sport::Cricket => SportView::Cricket,
            Sport::Rugby => SportView::Rugby,
            Sport::Handball => SportView::Handball,
            Sport::Football => SportView::Football,
            Sport::Volleyball => SportView::Volleyball,
            Sport::WaterPolo => SportView::WaterPolo,
            Sport::Equestrian => SportView::Equestrian,
            Sport::Swimming => SportView::Swimming,
            Sport::Running => SportView::Running,
            Sport::Cycling => SportView::Cycling,
            Sport::Skating => SportView::Skating,
            Sport::Skateboarding => SportView::Skateboarding,
            Sport::Surfing => SportView::Surfing,
            Sport::Skiing => SportView::Skiing,
            Sport::Snowboarding => SportView::Snowboarding,
            Sport::Rowing => SportView::Rowing,
            Sport::Wrestling => SportView::Wrestling,
            Sport::Other(s) => SportView::Other(s@),
        }
    }
}

/// The known sports in their fixed order.
pub open spec fn known_sports() -> Seq<SportView> {
    seq![
        SportView::Baseball,
        SportView::Soccer,
        SportView::Basketball,
        SportView::Tennis,
        SportView::Golf,
        SportView::Hockey,
        SportView::Cricket,
        SportView::Rugby,
        SportView::Handball,
        SportView::Football,
        SportView::Volleyball,
        SportView::WaterPolo,
        SportView::Equestrian,
        SportView::Swimming,
        SportView::Running,
        SportView::Cycling,
        SportView::Skating,
        SportView::Skateboarding,
        SportView::Surfing,
        SportView::Skiing,
        SportView::Snowboarding,
        SportView::Rowing,
        SportView::Wrestling,
    ]
}

/// The models of a sequence of sports.
pub open spec fn sport_views(sports: Seq<Sport>) -> Seq<SportView> {
    sports.map_values(|s: Sport| s@)
}

impl SportView {
    /// Whether the sport is one of the known sports.
    pub open spec fn is_known(self) -> bool {
        !(self is Other)
    }

    /// The text under which the sport is shown and stored: lower case, a
    /// space between words; for another sport its own text.
    pub open spec fn label(self) -> Seq<char> {
        match self {
            SportView::Baseball => "baseball"@,
            SportView::Soccer => "soccer"@,
            SportView::Basketball => "basketball"@,
            SportView::Tennis => "tennis"@,
            SportView::Golf => "golf"@,
            SportView::Hockey => "hockey"@,
            SportView::Cricket => "cricket"@,
            SportView::Rugby => "rugby"@,
            SportView::Handball => "handball"@,
            SportView::Football => "football"@,
            SportView::Volleyball => "volleyball"@,
            SportView::WaterPolo => "water polo"@,
            SportView::Equestrian => "equestrian"@,
            SportView::Swimming => "swimming"@,
            SportView::Running => "running"@,
            SportView::Cycling => "cycling"@,
            SportView::Skating => "skating"@,
            SportView::Skateboarding => "skateboarding"@,
            SportView::Surfing => "surfing"@,
            SportView::Skiing => "skiing"@,
            SportView::Snowboarding => "snowboarding"@,
            SportView::Rowing => "rowing"@,
            SportView::Wrestling => "wrestling"@,
            SportView::Other(s) => s,
        }
    }

    /// The icon of a known sport; another sport has none.
    pub open spec fn icon(self) -> Seq<char> {
        match self {
            SportView::Baseball => "⚾"@,
            SportView::Soccer => "⚽"@,
            SportView::Basketball => "🏀"@,
            SportView::Tennis => "🎾"@,
            SportView::Golf => "⛳"@,
            SportView::Hockey => "🏒"@,
            SportView::Cricket => "🏏"@,
            SportView::Rugby => "🏉"@,
            SportView::Handball => "🤾"@,
            SportView::Football => "🏈"@,
            SportView::Volleyball => "🏐"@,
            SportView::WaterPolo => "🤽"@,
            SportView::Equestrian => "🐎"@,
            SportView::Swimming => "🏊"@,
            SportView::Running => "🏃"@,
            SportView::Cycling => "🚴"@,
            SportView::Skating => "🛼"@,
            SportView::Skateboarding => "🛹"@,
            SportView::Surfing => "🏄"@,
            SportView::Skiing => "🎿"@,
            SportView::Snowboarding => "🏂"@,
            SportView::Rowing => "🚣"@,
            SportView::Wrestling => "🤼"@,
            SportView::Other(_) => Seq::empty(),
        }
    }

    /// The sport that a label in normal form names: the known sport with
    /// that label (water polo also with an underscore), else another sport
    /// with the label as its text.
    pub open spec fn of_label(label: Seq<char>) -> SportView {
        if label == "baseball"@ {
            SportView::Baseball
        } else if label == "soccer"@ {
            SportView::Soccer
        } else if label == "basketball"@ {
            SportView::Basketball
        } else if label == "tennis"@ {
            SportView::Tennis
        } else if label == "golf"@ {
            SportView::Golf
        } else if label == "hockey"@ {
            SportView::Hockey
        } else if label == "cricket"@ {
            SportView::Cricket
        } else if label == "rugby"@ {
            SportView::Rugby
        } else if label == "handball"@ {
            SportView::Handball
        } else if label == "football"@ {
            SportView::Football
        } else if label == "volleyball"@ {
            SportView::Volleyball
        } else if label == "water polo"@ || label == "water_polo"@ {
            SportView::WaterPolo
        } else if label == "equestrian"@ {
            SportView::Equestrian
        } else if label == "swimming"@ {
            SportView::Swimming
        } else if label == "running"@ {
            SportView::Running
        } else if label == "cycling"@ {
            SportView::Cycling
        } else if label == "skating"@ {
            SportView::Skating
        } else if label == "skateboarding"@ {
            SportView::Skateboarding
        } else if label == "surfing"@ {
            SportView::Surfing
        } else if label == "skiing"@ {
            SportView::Skiing
        } else if label == "snowboarding"@ {
            SportView::Snowboarding
        } else if label == "rowing"@ {
            SportView::Rowing
        } else if label == "wrestling"@ {
            SportView::Wrestling
        } else {
            SportView::Other(label)
        }
    }

    /// The sport that any text names: the normal form of the text, read as
    /// a label.
    pub open spec fn parse(text: Seq<char>) -> SportView {
        Self::of_label(normalized(text))
    }

    /// A sport is canonical when reading its own label gives it back.
    pub open spec fn is_canonical(self) -> bool {
        Self::parse(self.label()) == self
    }
}

impl Sport {
    /// The icon of the sport: one glyph for a known sport, the empty text
    /// for another.
    pub fn emoji(&self) -> (r: &'static str)
        ensures
            r@ == self@.icon(),
    {
        proof {
            reveal_strlit("");
            assert(""@ =~= Seq::<char>::empty());
        }
        match self {
            Sport::Baseball => "⚾",
            Sport::Soccer => "⚽",
            Sport::Basketball => "🏀",
            Sport::Tennis => "🎾",
            Sport::Golf => "⛳",
            Sport::Hockey => "🏒",
            Sport::Cricket => "🏏",
            Sport::Rugby => "🏉",
            Sport::Handball => "🤾",
            Sport::Football => "🏈",
            Sport::Volleyball => "🏐",
            Sport::WaterPolo => "🤽",
            Sport::Equestrian => "🐎",
            Sport::Swimming => "🏊",
            Sport::Running => "🏃",
            Sport::Cycling => "🚴",
            Sport::Skating => "🛼",
            Sport::Skateboarding => "🛹",
            Sport::Surfing => "🏄",
            Sport::Skiing => "🎿",
            Sport::Snowboarding => "🏂",
            Sport::Rowing => "🚣",
            Sport::Wrestling => "🤼",
            Sport::Other(_) => "",
        }
    }

    /// The known sports in their fixed order.
    pub fn all_known_sports() -> (r: Vec<Sport>)
        ensures
            sport_views(r@) == known_sports(),
    {
        let r = vec![
            Sport::Baseball,
            Sport::Soccer,
            Sport::Basketball,
            Sport::Tennis,
            Sport::Golf,
            Sport::Hockey,
            Sport::Cricket,
            Sport::Rugby,
            Sport::Handball,
            Sport::Football,
            Sport::Volleyball,
            Sport::WaterPolo,
            Sport::Equestrian,
            Sport::Swimming,
            Sport::Running,
            Sport::Cycling,
            Sport::Skating,
            Sport::Skateboarding,
            Sport::Surfing,
            Sport::Skiing,
            Sport::Snowboarding,
            Sport::Rowing,
            Sport::Wrestling,
        ];
        assert(sport_views(r@) =~= known_sports());
        r
    }

    /// The label of the sport, as it is shown and stored.
    pub fn display(&self) -> (r: String)
        ensures
            r@ == self@.label(),
    {
        match self {
            Sport::Baseball => "baseball".to_owned(),
            Sport::Soccer => "soccer".to_owned(),
            Sport::Basketball => "basketball".to_owned(),
            Sport::Tennis => "tennis".to_owned(),
            Sport::Golf => "golf".to_owned(),
            Sport::Hockey => "hockey".to_owned(),
            Sport::Cricket => "cricket".to_owned(),
            Sport::Rugby => "rugby".to_owned(),
            Sport::Handball => "handball".to_owned(),
            Sport::Football => "football".to_owned(),
            Sport::Volleyball => "volleyball".to_owned(),
            Sport::WaterPolo => "water polo".to_owned(),
            Sport::Equestrian => "equestrian".to_owned(),
            Sport::Swimming => "swimming".to_owned(),
            Sport::Running => "running".to_owned(),
            Sport::Cycling => "cycling".to_owned(),
            Sport::Skating => "skating".to_owned(),
            Sport::Skateboarding => "skateboarding".to_owned(),
            Sport::Surfing => "surfing".to_owned(),
            Sport::Skiing => "skiing".to_owned(),
            Sport::Snowboarding => "snowboarding".to_owned(),
            Sport::Rowing => "rowing".to_owned(),
            Sport::Wrestling => "wrestling".to_owned(),
            Sport::Other(s) => s.clone(),
        }
    }

    /// The sport that a label in normal form names.
    pub fn from_label(label: &str) -> (r: Sport)
        ensures
            r@ == SportView::of_label(label@),
    {
        if same_text(label, "baseball") {
            Sport::Baseball
        } else if same_text(label, "soccer") {
            Sport::Soccer
        } else if same_text(label, "basketball") {
            Sport::Basketball
        } else if same_text(label, "tennis") {
            Sport::Tennis
        } else if same_text(label, "golf") {
            Sport::Golf
        } else if same_text(label, "hockey") {
            Sport::Hockey
        } else if same_text(label, "cricket") {
            Sport::Cricket
        } else if same_text(label, "rugby") {
            Sport::Rugby
        } else if same_text(label, "handball") {
            Sport::Handball
        } else if same_text(label, "football") {
            Sport::Football
        } else if same_text(label, "volleyball") {
            Sport::Volleyball
        } else if same_text(label, "water polo") || same_text(label, "water_polo") {
            Sport::WaterPolo
        } else if same_text(label, "equestrian") {
            Sport::Equestrian
        } else if same_text(label, "swimming") {
            Sport::Swimming
        } else if same_text(label, "running") {
            Sport::Running
        } else if same_text(label, "cycling") {
            Sport::Cycling
        } else if same_text(label, "skating") {
            Sport::Skating
        } else if same_text(label, "skateboarding") {
            Sport::Skateboarding
        } else if same_text(label, "surfing") {
            Sport::Surfing
        } else if same_text(label, "skiing") {
            Sport::Skiing
        } else if same_text(label, "snowboarding") {
            Sport::Snowboarding
        } else if same_text(label, "rowing") {
            Sport::Rowing
        } else if same_text(label, "wrestling") {
            Sport::Wrestling
        } else {
            Sport::Other(label.to_owned())
        }
    }

    /// The sport that a text names. Every text names one: upper case and
    /// white space at the ends do not count, and a text that names no known
    /// sport gives another sport with the normalised text.
    pub fn from_string(s: &str) -> (r: Sport)
        ensures
            r@ == SportView::parse(s@),
    {
        let label = normalize(s);
        Sport::from_label(label.as_str())
    }
}

/// The length of each label and three of its characters: enough to tell
/// any two labels apart.
proof fn lemma_label_shapes()
    ensures
        "baseball"@.len() == 8 && "baseball"@[0] == 'b' && "baseball"@[2] == 's' && "baseball"@[5] == 'a',
        "soccer"@.len() == 6 && "soccer"@[0] == 's' && "soccer"@[2] == 'c' && "soccer"@[5] == 'r',
        "basketball"@.len() == 10 && "basketball"@[0] == 'b' && "basketball"@[2] == 's' && "basketball"@[5] == 't',
        "tennis"@.len() == 6 && "tennis"@[0] == 't' && "tennis"@[2] == 'n' && "tennis"@[5] == 's',
        "golf"@.len() == 4 && "golf"@[0] == 'g' && "golf"@[2] == 'l',
        "hockey"@.len() == 6 && "hockey"@[0] == 'h' && "hockey"@[2] == 'c' && "hockey"@[5] == 'y',
        "cricket"@.len() == 7 && "cricket"@[0] == 'c' && "cricket"@[2] == 'i' && "cricket"@[5] == 'e',
        "rugby"@.len() == 5 && "rugby"@[0] == 'r' && "rugby"@[2] == 'g',
        "handball"@.len() == 8 && "handball"@[0] == 'h' && "handball"@[2] == 'n' && "handball"@[5] == 'a',
        "football"@.len() == 8 && "football"@[0] == 'f' && "football"@[2] == 'o' && "football"@[5] == 'a',
        "volleyball"@.len() == 10 && "volleyball"@[0] == 'v' && "volleyball"@[2] == 'l' && "volleyball"@[5] == 'y',
        "water polo"@.len() == 10 && "water polo"@[0] == 'w' && "water polo"@[2] == 't' && "water polo"@[5] == ' ',
        "equestrian"@.len() == 10 && "equestrian"@[0] == 'e' && "equestrian"@[2] == 'u' && "equestrian"@[5] == 't',
        "swimming"@.len() == 8 && "swimming"@[0] == 's' && "swimming"@[2] == 'i' && "swimming"@[5] == 'i',
        "running"@.len() == 7 && "running"@[0] == 'r' && "running"@[2] == 'n' && "running"@[5] == 'n',
        "cycling"@.len() == 7 && "cycling"@[0] == 'c' && "cycling"@[2] == 'c' && "cycling"@[5] == 'n',
        "skating"@.len() == 7 && "skating"@[0] == 's' && "skating"@[2] == 'a' && "skating"@[5] == 'n',
        "skateboarding"@.len() == 13 && "skateboarding"@[0] == 's' && "skateboarding"@[2] == 'a' && "skateboarding"@[5] == 'b',
        "surfing"@.len() == 7 && "surfing"@[0] == 's' && "surfing"@[2] == 'r' && "surfing"@[5] == 'n',
        "skiing"@.len() == 6 && "skiing"@[0] == 's' && "skiing"@[2] == 'i' && "skiing"@[5] == 'g',
        "snowboarding"@.len() == 12 && "snowboarding"@[0] == 's' && "snowboarding"@[2] == 'o' && "snowboarding"@[5] == 'o',
        "rowing"@.len() == 6 && "rowing"@[0] == 'r' && "rowing"@[2] == 'w' && "rowing"@[5] == 'g',
        "wrestling"@.len() == 9 && "wrestling"@[0] == 'w' && "wrestling"@[2] == 'e' && "wrestling"@[5] == 'l',
        "water_polo"@.len() == 10 && "water_polo"@[0] == 'w' && "water_polo"@[2] == 't' && "water_polo"@[5] == '_',
{
    reveal_strlit("baseball");
    reveal_strlit("soccer");
    reveal_strlit("basketball");
    reveal_strlit("tennis");
    reveal_strlit("golf");
    reveal_strlit("hockey");
    reveal_strlit("cricket");
    reveal_strlit("rugby");
    reveal_strlit("handball");
    reveal_strlit("football");
    reveal_strlit("volleyball");
    reveal_strlit("water polo");
    reveal_strlit("equestrian");
    reveal_strlit("swimming");
    reveal_strlit("running");
    reveal_strlit("cycling");
    reveal_strlit("skating");
    reveal_strlit("skateboarding");
    reveal_strlit("surfing");
    reveal_strlit("skiing");
    reveal_strlit("snowboarding");
    reveal_strlit("rowing");
    reveal_strlit("wrestling");
    reveal_strlit("water_polo");
}

/// Reading the label of a known sport gives that sport: no two known sports
/// share a label.
pub proof fn lemma_known_label_names_its_sport(sport: SportView)
    requires
        sport.is_known(),
    ensures
        SportView::of_label(sport.label()) == sport,
{
    lemma_label_shapes();
}

/// The label of the sport that a label names is that label again, but for
/// the second spelling of water polo, which gives the first.
pub proof fn lemma_label_of_named_sport(label: Seq<char>)
    ensures
        label != "water_polo"@ ==> SportView::of_label(label).label() == label,
        label == "water_polo"@ ==> SportView::of_label(label) == SportView::WaterPolo,
        SportView::of_label(label) is Other ==> SportView::of_label(label) == SportView::Other(
            label,
        ),
{
    lemma_label_shapes();
}

/// The labels of the known sports, and the second spelling of water polo,
/// are plain: trimming and lower-casing leave them as they are.
pub proof fn lemma_known_labels_are_plain(sport: SportView)
    requires
        sport.is_known(),
    ensures
        is_plain(sport.label()),
        is_plain("water_polo"@),
{
    reveal_strlit("baseball");
    reveal_strlit("soccer");
    reveal_strlit("basketball");
    reveal_strlit("tennis");
    reveal_strlit("golf");
    reveal_strlit("hockey");
    reveal_strlit("cricket");
    reveal_strlit("rugby");
    reveal_strlit("handball");
    reveal_strlit("football");
    reveal_strlit("volleyball");
    reveal_strlit("water polo");
    reveal_strlit("equestrian");
    reveal_strlit("swimming");
    reveal_strlit("running");
    reveal_strlit("cycling");
    reveal_strlit("skating");
    reveal_strlit("skateboarding");
    reveal_strlit("surfing");
    reveal_strlit("skiing");
    reveal_strlit("snowboarding");
    reveal_strlit("rowing");
    reveal_strlit("wrestling");
    reveal_strlit("water_polo");
}

/// Every known sport is canonical: reading its label gives it back.
pub proof fn lemma_known_sports_are_canonical(sport: SportView)
    requires
        sport.is_known(),
    ensures
        sport.is_canonical(),
{
    lemma_known_labels_are_plain(sport);
    lemma_known_label_names_its_sport(sport);
}

/// Another sport is canonical when its text is in normal form and is no
/// label of a known sport.
pub proof fn lemma_canonical_other(text: Seq<char>)
    ensures
        SportView::Other(text).is_canonical() <==> normalized(text) == text && SportView::of_label(
            text,
        ) is Other,
{
    lemma_label_of_named_sport(normalized(text));
    lemma_label_of_named_sport(text);
}

/// A known sport has an icon of exactly one character; another sport has
/// none.
pub proof fn lemma_icon_is_one_glyph(sport: SportView)
    ensures
        sport.is_known() ==> sport.icon().len() == 1,
        !sport.is_known() ==> sport.icon().len() == 0,
{
    reveal_strlit("⚾");
    reveal_strlit("⚽");
    reveal_strlit("🏀");
    reveal_strlit("🎾");
    reveal_strlit("⛳");
    reveal_strlit("🏒");
    reveal_strlit("🏏");
    reveal_strlit("🏉");
    reveal_strlit("🤾");
    reveal_strlit("🏈");
    reveal_strlit("🏐");
    reveal_strlit("🤽");
    reveal_strlit("🐎");
    reveal_strlit("🏊");
    reveal_strlit("🏃");
    reveal_strlit("🚴");
    reveal_strlit("🛼");
    reveal_strlit("🛹");
    reveal_strlit("🏄");
    reveal_strlit("🎿");
    reveal_strlit("🏂");
    reveal_strlit("🚣");
    reveal_strlit("🤼");
}

/// The list of known sports holds every known sport exactly once.
pub proof fn lemma_known_sports_complete(sport: SportView)
    requires
        sport.is_known(),
    ensures
        known_sports().len() == 23,
        exists|i: int| 0 <= i < 23 && known_sports()[i] == sport,
        forall|i: int, j: int|
            0 <= i < 23 && 0 <= j < 23 && known_sports()[i] == known_sports()[j] ==> i == j,
        forall|i: int| 0 <= i < 23 ==> (#[trigger] known_sports()[i]).is_known(),
{
    let i = choose|i: int| 0 <= i < 23 && known_sports()[i] == sport;
}

} // verus!
