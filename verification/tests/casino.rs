use synixe_bot::casino::{
    can_play_balance, carddraw_outcome, coinflip_outcome, diceroll_outcome, game_name,
    low_balance_reply, lucky3_outcome, number_to_emoji, numberguess_outcome, parse_game, play,
    Game, MAX_BID, MIN_BALANCE,
};

#[test]
fn emoji_for_each_number() {
    let expected = [
        ":one:", ":two:", ":three:", ":four:", ":five:", ":six:", ":seven:", ":eight:", ":nine:",
        ":keycap_ten:",
    ];
    for (i, e) in expected.iter().enumerate() {
        assert_eq!(number_to_emoji(i as u32 + 1), *e);
    }
}

#[test]
fn game_names_round_trip() {
    for g in [Game::Coinflip, Game::Diceroll, Game::Carddraw, Game::Numberguess, Game::Lucky3] {
        assert_eq!(parse_game(game_name(g)), Some(g));
    }
    assert_eq!(parse_game("poker"), None);
    assert_eq!(parse_game("coin"), None);
}

#[test]
fn balance_threshold() {
    assert!(can_play_balance(MIN_BALANCE));
    assert!(can_play_balance(5000));
    assert!(!can_play_balance(999));
    assert_eq!(low_balance_reply(), "You need at least $1000 to play casino games");
}

#[test]
fn coinflip_pays_double() {
    let won = coinflip_outcome(100, true);
    assert_eq!(won.winnings, 200);
    assert_eq!(won.reply, "You won $200!");
    let lost = coinflip_outcome(100, false);
    assert_eq!(lost.winnings, 0);
    assert_eq!(lost.reply, "You lost $100!");
}

#[test]
fn diceroll_pays_six_times() {
    let won = diceroll_outcome(50, 3, 2);
    assert_eq!(won.winnings, 300);
    assert_eq!(won.reply, "You rolled a 3! You guessed correctly! You won $300!");
    let lost = diceroll_outcome(50, 4, 6);
    assert_eq!(lost.winnings, 0);
    assert_eq!(lost.reply, "You rolled a 1! You guessed 4. You lost $50!");
}

#[test]
fn carddraw_pays_double() {
    let won = carddraw_outcome(10, "red", true);
    assert_eq!(won.winnings, 20);
    assert_eq!(won.reply, "The card is red! You won $20!");
    let lost = carddraw_outcome(10, "red", false);
    assert_eq!(lost.winnings, 0);
    assert_eq!(lost.reply, "The card is black! You lost $10!");
}

#[test]
fn numberguess_pays_ten_times() {
    let won = numberguess_outcome(MAX_BID, 10, 9);
    assert_eq!(won.winnings, 5000);
    assert_eq!(won.reply, "The number was 10! You guessed correctly! You won $5000!");
    let lost = numberguess_outcome(1, 2, 10);
    assert_eq!(lost.reply, "The number was 1! You guessed 2. You lost $1!");
}

#[test]
fn lucky3_payouts() {
    let none = lucky3_outcome(100, 0, 1, 3);
    assert_eq!(none.winnings, 0);
    assert_eq!(none.reply, "You rolled: :one: :two: :four:\nYou got no threes! You lost your bet!");
    let one = lucky3_outcome(101, 2, 0, 0);
    assert_eq!(one.winnings, 151);
    assert_eq!(one.reply, "You rolled: :three: :one: :one:\nYou got 1 threes! You won $151!");
    let two = lucky3_outcome(100, 2, 8, 5);
    assert_eq!(two.winnings, 400);
    let three = lucky3_outcome(500, 2, 8, 14);
    assert_eq!(three.winnings, 15000);
    assert_eq!(three.reply, "You rolled: :three: :three: :three:\nYou got 3 threes! You won $15000!");
}

#[test]
fn play_settles_each_game() {
    for _ in 0..20 {
        let o = play(Game::Coinflip, 10, 0, "");
        assert!(o.winnings == 0 || o.winnings == 20);
        let o = play(Game::Diceroll, 10, 3, "");
        assert!(o.winnings == 0 || o.winnings == 60);
        let o = play(Game::Carddraw, 10, 0, "black");
        assert!(o.winnings == 0 || o.winnings == 20);
        let o = play(Game::Numberguess, 10, 5, "");
        assert!(o.winnings == 0 || o.winnings == 100);
        let o = play(Game::Lucky3, 10, 0, "");
        assert!([0, 15, 40, 300].contains(&o.winnings));
    }
}
