use bbt::{opponents, Outcome, Pairing};

fn pairing(opponent: usize, outcome: Outcome) -> Pairing {
    Pairing { opponent, outcome }
}

#[test]
fn four_player_race_pairings() {
    let ranks = [1, 2, 3, 4];
    assert_eq!(
        opponents(&ranks, 0),
        vec![
            pairing(1, Outcome::Win),
            pairing(2, Outcome::Win),
            pairing(3, Outcome::Win)
        ]
    );
    assert_eq!(
        opponents(&ranks, 1),
        vec![
            pairing(0, Outcome::Loss),
            pairing(2, Outcome::Win),
            pairing(3, Outcome::Win)
        ]
    );
    assert_eq!(
        opponents(&ranks, 3),
        vec![
            pairing(0, Outcome::Loss),
            pairing(1, Outcome::Loss),
            pairing(2, Outcome::Loss)
        ]
    );
}

#[test]
fn tied_teams_draw() {
    // First place, a tie for second, fourth.
    let ranks = [1, 2, 2, 4];
    assert_eq!(
        opponents(&ranks, 2),
        vec![
            pairing(0, Outcome::Loss),
            pairing(1, Outcome::Draw),
            pairing(3, Outcome::Win)
        ]
    );
}

#[test]
fn ranks_need_not_be_contiguous() {
    let ranks = [10, 0, 7];
    assert_eq!(
        opponents(&ranks, 0),
        vec![pairing(1, Outcome::Loss), pairing(2, Outcome::Loss)]
    );
    assert_eq!(
        opponents(&ranks, 1),
        vec![pairing(0, Outcome::Win), pairing(2, Outcome::Win)]
    );
}

#[test]
fn lone_team_meets_no_opponent() {
    assert!(opponents(&[1], 0).is_empty());
    assert!(opponents(&[usize::MAX], 0).is_empty());
}

#[test]
fn every_pair_is_met_from_both_sides() {
    let ranks = [3, 1, 2];
    for i in 0..ranks.len() {
        let mine = opponents(&ranks, i);
        assert_eq!(mine.len(), ranks.len() - 1);
        for p in mine {
            let theirs = opponents(&ranks, p.opponent);
            let back: Vec<&Pairing> = theirs.iter().filter(|q| q.opponent == i).collect();
            assert_eq!(back.len(), 1);
            let expected = match p.outcome {
                Outcome::Win => Outcome::Loss,
                Outcome::Loss => Outcome::Win,
                Outcome::Draw => Outcome::Draw,
            };
            assert_eq!(back[0].outcome, expected);
        }
    }
}

#[test]
fn two_player_duel_pairings() {
    // The ranks of a duel won by the first player.
    let ranks = [0, 1];
    assert_eq!(opponents(&ranks, 0), vec![pairing(1, Outcome::Win)]);
    assert_eq!(opponents(&ranks, 1), vec![pairing(0, Outcome::Loss)]);
}
