use walle::Signal::MatchAndBlock;
use walle::Signal::Matched;
use walle::Signal::NotMatch;

#[test]
fn and_table_all_nine_pairs() {
    assert_eq!(MatchAndBlock.bitand(MatchAndBlock), MatchAndBlock);
    assert_eq!(MatchAndBlock.bitand(Matched), MatchAndBlock);
    assert_eq!(Matched.bitand(MatchAndBlock), MatchAndBlock);
    assert_eq!(Matched.bitand(Matched), Matched);
    assert_eq!(MatchAndBlock.bitand(NotMatch), NotMatch);
    assert_eq!(NotMatch.bitand(MatchAndBlock), NotMatch);
    assert_eq!(Matched.bitand(NotMatch), NotMatch);
    assert_eq!(NotMatch.bitand(Matched), NotMatch);
    assert_eq!(NotMatch.bitand(NotMatch), NotMatch);
}

#[test]
fn or_table_all_nine_pairs() {
    assert_eq!(MatchAndBlock.bitor(MatchAndBlock), MatchAndBlock);
    assert_eq!(MatchAndBlock.bitor(Matched), MatchAndBlock);
    assert_eq!(Matched.bitor(MatchAndBlock), MatchAndBlock);
    assert_eq!(MatchAndBlock.bitor(NotMatch), MatchAndBlock);
    assert_eq!(NotMatch.bitor(MatchAndBlock), MatchAndBlock);
    assert_eq!(Matched.bitor(Matched), Matched);
    assert_eq!(Matched.bitor(NotMatch), Matched);
    assert_eq!(NotMatch.bitor(Matched), Matched);
    assert_eq!(NotMatch.bitor(NotMatch), NotMatch);
}
