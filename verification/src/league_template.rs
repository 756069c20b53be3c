//! League templates: ready-made leagues that a user may generate in one step.

use vstd::prelude::*;
use rand::rngs::ThreadRng;
use crate::era::Era;
use crate::league::{League, clash_from, lemma_clash_from, name_taken};
use crate::player::PlayerGender;
use crate::team::generated_team;
use crate::text::{int_text, int_to_string, lemma_int_text_injective, str_eq};

verus! {

/// The name and abbreviation of a team of a template.
pub struct TeamTemplate {
    pub name: String,
    pub abrv: String,
}

/// A league to generate: its name, era, gender, schedule shape and teams.
pub struct LeagueTemplate {
    pub name: String,
    pub era: Era,
    pub gender: PlayerGender,
    pub series_per_matchup: i32,
    pub game_per_series: i32,
    pub teams_templates: Vec<TeamTemplate>,
}

impl LeagueTemplate {
    pub open spec fn text(&self) -> Seq<char> {
        "[ name:"@ + self.name@ + ", era:"@ + self.era.name() + ", gender:"@ + self.gender.name() + "]"@
    }

    pub fn to_display(&self) -> (r: String)
        ensures
            r@ == self.text(),
    {
        let mut s = String::from_str("[ name:");
        s.append(self.name.as_str());
        s.append(", era:");
        s.append(self.era.to_display());
        s.append(", gender:");
        s.append(self.gender.to_display());
        s.append("]");
        s
    }

    /// The names and abbreviations of the template's teams, in order.
    pub open spec fn team_names(&self) -> Seq<(Seq<char>, Seq<char>)> {
        self.teams_templates@.map_values(|t: TeamTemplate| (t.name@, t.abrv@))
    }
}

/// No two teams of the template share a name or an abbreviation.
pub open spec fn distinct_teams(teams: Seq<TeamTemplate>) -> bool {
    forall|i: int, j: int|
        0 <= i < j < teams.len() ==> #[trigger] teams[i].abrv@ != #[trigger] teams[j].abrv@
            && teams[i].name@ != teams[j].name@
}

impl LeagueTemplate {
    /// Whether no two teams of the template share a name or an abbreviation.
    pub fn teams_are_distinct(&self) -> (r: bool)
        ensures
            r == distinct_teams(self.teams_templates@),
    {
        let ghost t = self.teams_templates@;
        let n = self.teams_templates.len();
        let mut i: usize = 0;
        while i < n
            invariant
                n == t.len(),
                t == self.teams_templates@,
                i <= n,
                forall|a: int, b: int| 0 <= a < b < n && a < i ==> differ(t[a], t[b]),
            decreases n - i,
        {
            let mut j: usize = i + 1;
            while j < n
                invariant
                    n == t.len(),
                    t == self.teams_templates@,
                    i < n,
                    i + 1 <= j <= n,
                    forall|a: int, b: int| 0 <= a < b < n && a < i ==> differ(t[a], t[b]),
                    forall|b: int| i < b < j ==> differ(t[i as int], t[b]),
                decreases n - j,
            {
                let same_abrv = str_eq(self.teams_templates[i].abrv.as_str(), self.teams_templates[j].abrv.as_str());
                let same_name = str_eq(self.teams_templates[i].name.as_str(), self.teams_templates[j].name.as_str());
                if same_abrv || same_name {
                    assert(!differ(t[i as int], t[j as int]));
                    return false;
                }
                assert(differ(t[i as int], t[j as int]));
                j = j + 1;
            }
            i = i + 1;
        }
        assert forall|a: int, b: int|
            0 <= a < b < t.len() implies #[trigger] t[a].abrv@ != #[trigger] t[b].abrv@ && t[a].name@ != t[b].name@ by {
            assert(differ(t[a], t[b]));
        }
        true
    }
}

/// Two teams of a template differ in name and in abbreviation.
pub open spec fn differ(x: TeamTemplate, y: TeamTemplate) -> bool {
    x.abrv@ != y.abrv@ && x.name@ != y.name@
}

/// The teams of the Pacific Coast League template.
pub open spec fn pcl_teams() -> Seq<(Seq<char>, Seq<char>)> {
    seq![
        ("Los Angeles Angels"@, "LA"@),
        ("Hollywood Stars"@, "HWYD"@),
        ("San Diego Mission Bells"@, "SD"@),
        ("Sacramento Solons"@, "SAC"@),
        ("Oakland Oaks"@, "OAK"@),
        ("San Francisco Seals"@, "SF"@),
        ("Portland Beavers"@, "POR"@),
        ("Seattle Rainiers"@, "SEA"@),
    ]
}

fn team_template(name: &str, abrv: &str) -> (r: TeamTemplate)
    ensures
        r.name@ == name@,
        r.abrv@ == abrv@,
{
    TeamTemplate { name: String::from_str(name), abrv: String::from_str(abrv) }
}

/// The league templates: the Pacific Coast League, a Modern era league of
/// eight male teams, ten series per matchup and three games per series.
pub fn load_league_templates() -> (r: Vec<LeagueTemplate>)
    ensures
        r.len() == 1,
        r@[0].name@ == "PCL"@,
        r@[0].era == Era::Modern,
        r@[0].gender == PlayerGender::Male,
        r@[0].series_per_matchup == 10,
        r@[0].game_per_series == 3,
        r@[0].team_names() == pcl_teams(),
{
    let teams_templates = vec![
        team_template("Los Angeles Angels", "LA"),
        team_template("Hollywood Stars", "HWYD"),
        team_template("San Diego Mission Bells", "SD"),
        team_template("Sacramento Solons", "SAC"),
        team_template("Oakland Oaks", "OAK"),
        team_template("San Francisco Seals", "SF"),
        team_template("Portland Beavers", "POR"),
        team_template("Seattle Rainiers", "SEA"),
    ];
    let t = LeagueTemplate {
        name: String::from_str("PCL"),
        era: Era::Modern,
        gender: PlayerGender::Male,
        series_per_matchup: 10,
        game_per_series: 3,
        teams_templates,
    };
    assert(t.team_names() =~= pcl_teams());
    vec![t]
}

/// The name a league from a template gets when it is the `k`-th: the
/// template's name, an underscore and `k`.
pub open spec fn numbered_name(template_name: Seq<char>, k: int) -> Seq<char> {
    template_name + "_"@ + int_text(k)
}

pub open spec fn is_taken(taken: Seq<String>, name: Seq<char>) -> bool {
    exists|i: int| 0 <= i < taken.len() && #[trigger] taken[i]@ == name
}

proof fn lemma_pigeonhole(c: Seq<Seq<char>>, t: Seq<Seq<char>>)
    requires
        c.no_duplicates(),
        forall|i: int| 0 <= i < c.len() ==> t.contains(#[trigger] c[i]),
    ensures
        c.len() <= t.len(),
{
    c.unique_seq_to_set();
    t.lemma_cardinality_of_set();
    vstd::seq_lib::seq_to_set_is_finite(t);
    assert(c.to_set().subset_of(t.to_set())) by {
        assert forall|x: Seq<char>| c.to_set().contains(x) implies t.to_set().contains(x) by {
            let i = choose|i: int| 0 <= i < c.len() && c[i] == x;
        }
    }
    vstd::set_lib::lemma_len_subset(c.to_set(), t.to_set());
}

/// The name for a new league from a template, given what counting the
/// leagues already saved gave: with no count, the first number; otherwise the
/// first number above the count whose name is not taken yet.
pub fn template_league_name(template_name: &String, league_counts: &Vec<i64>, taken_names: &Vec<String>) -> (r: String)
    requires
        league_counts.len() > 0 ==> league_counts@[0] + taken_names.len() + 1 <= i64::MAX,
    ensures
        league_counts.len() == 0 ==> r@ == numbered_name(template_name@, 1),
        league_counts.len() > 0 ==> exists|m: int| {
            &&& league_counts@[0] < m
            &&& r@ == numbered_name(template_name@, m)
            &&& !is_taken(taken_names@, numbered_name(template_name@, m))
            &&& forall|k: int| league_counts@[0] < k < m ==> is_taken(taken_names@, #[trigger] numbered_name(template_name@, k))
        },
{
    if league_counts.len() == 0 {
        let mut s = String::from_str(template_name.as_str());
        s.append("_");
        s.append(int_to_string(1).as_str());
        return s;
    }
    let start = league_counts[0];
    let mut id_num = start;
    let ghost views = taken_names@.map_values(|s: String| s@);
    loop
        invariant
            league_counts.len() > 0,
            start == league_counts@[0],
            start <= id_num <= start + taken_names.len(),
            start + taken_names.len() + 1 <= i64::MAX,
            views == taken_names@.map_values(|s: String| s@),
            forall|k: int| start < k <= id_num ==> is_taken(taken_names@, #[trigger] numbered_name(template_name@, k)),
        decreases start + taken_names.len() - id_num,
    {
        let mut potential_name = String::from_str(template_name.as_str());
        potential_name.append("_");
        potential_name.append(int_to_string(id_num + 1).as_str());
        if !name_taken(taken_names, &potential_name) {
            proof {
                let m = id_num + 1;
                assert(potential_name@ =~= numbered_name(template_name@, m));
                assert(!is_taken(taken_names@, numbered_name(template_name@, m)));
            }
            return potential_name;
        }
        assert(potential_name@ =~= numbered_name(template_name@, id_num + 1));
        proof {
            let c = Seq::new((id_num + 1 - start) as nat, |k: int| numbered_name(template_name@, start + 1 + k));
            assert forall|i: int, j: int| 0 <= i < c.len() && 0 <= j < c.len() && i != j implies c[i] != c[j] by {
                lemma_int_text_injective(start + 1 + i, start + 1 + j);
                if c[i] == c[j] {
                    reveal_strlit("_");
                    assert(c[i] == numbered_name(template_name@, start + 1 + i));
                    assert(c[j] == numbered_name(template_name@, start + 1 + j));
                    assert(int_text(start + 1 + i) =~= c[i].subrange(template_name@.len() as int + 1, c[i].len() as int));
                    assert(int_text(start + 1 + j) =~= c[j].subrange(template_name@.len() as int + 1, c[j].len() as int));
                }
            }
            assert forall|i: int| 0 <= i < c.len() implies views.contains(#[trigger] c[i]) by {
                assert(is_taken(taken_names@, numbered_name(template_name@, start + 1 + i)));
                let w = choose|w: int| 0 <= w < taken_names.len() && #[trigger] taken_names@[w]@ == numbered_name(template_name@, start + 1 + i);
                assert(views[w] == c[i]);
            }
            lemma_pigeonhole(c, views);
        }
        id_num = id_num + 1;
    }
}

/// A new league from a template, with its name and id: the template's era
/// and gender, and one generated team per team of the template.
pub fn league_from_template(template: &LeagueTemplate, league_name: &String, league_id: i64, thread: &mut ThreadRng) -> (r: League)
    requires
        distinct_teams(template.teams_templates@),
    ensures
        r.name@ == league_name@,
        r.era == template.era,
        r.gender == template.gender,
        r.league_id == league_id,
        r.note is None,
        r.teams.len() == template.teams_templates.len(),
        forall|i: int| 0 <= i < r.teams.len() ==> {
            &&& (#[trigger] r.teams@[i]).name@ == template.teams_templates@[i].name@
            &&& r.teams@[i].abrv@ == template.teams_templates@[i].abrv@
            &&& generated_team(r.teams@[i], template.era)
        },
{
    let mut new_league = League::new(league_name, template.gender, template.era, league_id);
    let n = template.teams_templates.len();
    for i in 0..n
        invariant
            n == template.teams_templates.len(),
            distinct_teams(template.teams_templates@),
            new_league.name@ == league_name@,
            new_league.era == template.era,
            new_league.gender == template.gender,
            new_league.league_id == league_id,
            new_league.note is None,
            new_league.teams.len() == i,
            forall|k: int| 0 <= k < i ==> {
                &&& (#[trigger] new_league.teams@[k]).name@ == template.teams_templates@[k].name@
                &&& new_league.teams@[k].abrv@ == template.teams_templates@[k].abrv@
                &&& generated_team(new_league.teams@[k], template.era)
            },
    {
        let team_template = &template.teams_templates[i];
        proof {
            lemma_clash_from(new_league.teams@, 0, team_template.abrv@, team_template.name@);
            assert forall|j: int| 0 <= j < new_league.teams.len() implies #[trigger] new_league.teams@[j].abrv@
                != team_template.abrv@ && new_league.teams@[j].name@ != team_template.name@ by {
                assert(new_league.teams@[j].abrv@ == template.teams_templates@[j].abrv@);
                assert(template.teams_templates@[j].abrv@ != template.teams_templates@[i as int].abrv@);
            }
        }
        let ghost before = new_league.teams@;
        let added = new_league.new_team(&team_template.abrv, &team_template.name, thread);
        proof {
            assert forall|k: int| 0 <= k < i + 1 implies {
                &&& (#[trigger] new_league.teams@[k]).name@ == template.teams_templates@[k].name@
                &&& new_league.teams@[k].abrv@ == template.teams_templates@[k].abrv@
                &&& generated_team(new_league.teams@[k], template.era)
            } by {
                if k < i {
                    assert(new_league.teams@[k] == new_league.teams@.drop_last()[k]);
                }
            }
        }
    }
    new_league
}

} // verus!
