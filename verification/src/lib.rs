//! Generation and bookkeeping for leagues of the Deadball tabletop baseball game:
//! players, teams, leagues, schedules and pennant races.

pub mod dice;
pub mod text;
pub mod traits;
pub mod b_traits;
pub mod tier;
pub mod pd;
pub mod era;
pub mod position;
pub mod names;
pub mod note;
pub mod player_error;
pub mod lineup_score;
pub mod pitcher_rank_info;
pub mod player;
pub mod player_quality;
pub mod combinatorics;
pub mod edit_league_error;
pub mod pennant;
pub mod team;
pub mod league;
pub mod league_template;
pub mod schedule;
pub mod game;
pub mod futures;
pub mod minor_leaguer;
pub mod player_pool;
pub mod main_menu;
pub mod ranking;
pub mod sched_view;
pub mod pd_order;
