use lipsum::MarkovChain;
use typer::engine::{App, SessionError};
use typer::ipsum::Ipsum;
use typer::source::{MemorySource, ReadOutcome, TextSource};

#[test]
fn memory_source_hands_out_its_bytes_in_order() {
    let mut src = MemorySource::new(b"hello world".to_vec());
    assert_eq!(src.remaining(), 11);
    assert_eq!(src.read(5), ReadOutcome::Bytes(b"hello".to_vec()));
    assert_eq!(src.remaining(), 6);
    assert_eq!(src.read(0), ReadOutcome::Bytes(vec![]));
    assert_eq!(src.read(4), ReadOutcome::Bytes(b" wor".to_vec()));
    assert_eq!(src.read(4), ReadOutcome::Bytes(b"ld".to_vec()));
    assert_eq!(src.remaining(), 0);
    assert_eq!(src.read(4), ReadOutcome::Eof);
    assert_eq!(src.read(0), ReadOutcome::Eof);
}

#[test]
fn empty_memory_source_is_at_its_end() {
    let mut src = MemorySource::new(vec![]);
    assert_eq!(src.read(8), ReadOutcome::Eof);
    assert_eq!(src.remaining(), 0);
}

#[test]
fn rounds_join_words_with_single_spaces() {
    let mut src = Ipsum::new(MarkovChain::new());
    let mut out = Vec::new();
    src.absorb(&mut out, 8, &b"Lorem.".to_vec());
    assert_eq!(out, b"".to_vec());
    assert_eq!(src.pending(), &b"Lorem".to_vec());
    src.absorb(&mut out, 8, &b"Ipsum.".to_vec());
    assert_eq!(out, b"Lorem".to_vec());
    assert_eq!(src.pending(), &b" Ipsum".to_vec());
    src.absorb(&mut out, 8, &b"Dolor!".to_vec());
    assert_eq!(out, b"Lorem Ip".to_vec());
    assert_eq!(src.pending(), &b" Dolor".to_vec());
    src.absorb(&mut out, 8, &b"Sit.".to_vec());
    assert_eq!(out, b"Lorem Ip".to_vec());
    assert_eq!(src.pending(), &b" Sit".to_vec());
}

#[test]
fn round_with_a_bare_mark_leaves_nothing_or_a_space_waiting() {
    let mut src = Ipsum::new(MarkovChain::new());
    let mut out = Vec::new();
    src.absorb(&mut out, 8, &vec![]);
    assert_eq!(src.pending().len(), 0);
    src.absorb(&mut out, 8, &b".".to_vec());
    assert_eq!(src.pending().len(), 0);
    src.absorb(&mut out, 8, &b"A.".to_vec());
    src.absorb(&mut out, 8, &b".".to_vec());
    assert_eq!(out, b"A".to_vec());
    assert_eq!(src.pending(), &b" ".to_vec());
    src.absorb(&mut out, 8, &vec![]);
    assert_eq!(out, b"A ".to_vec());
    assert_eq!(src.pending(), &b" ".to_vec());
}

#[test]
fn round_into_a_full_buffer_drops_what_waited() {
    let mut src = Ipsum::new(MarkovChain::new());
    let mut out = b"full".to_vec();
    src.absorb(&mut out, 4, &b"Lorem.".to_vec());
    src.absorb(&mut out, 4, &b"Ipsum.".to_vec());
    assert_eq!(out, b"full".to_vec());
    assert_eq!(src.pending(), &b" Ipsum".to_vec());
    src.absorb(&mut out, 2, &b"Dolor.".to_vec());
    assert_eq!(out, b"full".to_vec());
    assert_eq!(src.pending(), &b" Dolor".to_vec());
}

#[test]
fn generated_text_is_the_chain_s_words_without_their_full_stops() {
    let vocabulary: [&[u8]; 5] = [b"Red", b"Orange", b"Yellow", b"Green", b"Blue"];
    let mut chain = MarkovChain::new();
    chain.learn("red orange yellow green blue indigo violet");
    let mut src = Ipsum::new(chain);
    let text = match src.read(200) {
        ReadOutcome::Bytes(text) => text,
        other => panic!("no text: {:?}", other),
    };
    assert_eq!(text.len(), 200);
    let tokens: Vec<&[u8]> = text.split(|b| *b == b' ').collect();
    assert!(tokens.len() > 20);
    for token in &tokens[..tokens.len() - 1] {
        assert!(vocabulary.contains(token));
    }
    let last = tokens[tokens.len() - 1];
    assert!(vocabulary.iter().any(|word| word.starts_with(last)));

    let follow = match src.read(3) {
        ReadOutcome::Bytes(follow) => follow,
        other => panic!("no text: {:?}", other),
    };
    assert_eq!(follow.len(), 3);
    assert_eq!(follow[0], b' ');
    assert!(vocabulary.iter().any(|word| word.starts_with(&follow[1..])));
    assert_eq!(src.read(0), ReadOutcome::Bytes(vec![]));
    assert_eq!(src.pending()[0], b' ');
}

#[test]
fn bare_marks_in_a_row_do_not_end_the_text() {
    let mut src = Ipsum::new(MarkovChain::new());
    let mut out = Vec::new();
    for _ in 0..1000 {
        src.absorb(&mut out, 8, &b".".to_vec());
    }
    assert_eq!(out.len(), 0);
    assert_eq!(src.pending().len(), 0);
    src.absorb(&mut out, 8, &b"Red.".to_vec());
    assert_eq!(src.pending(), &b"Red".to_vec());
    src.absorb(&mut out, 8, &b"Blue.".to_vec());
    assert_eq!(out, b"Red".to_vec());
    assert_eq!(src.pending(), &b" Blue".to_vec());
}

#[test]
fn corpus_with_free_standing_dashes_still_fills_the_buffer() {
    let mut chain = MarkovChain::new();
    chain.learn("-- -- red -- -- blue -- -- , red -- blue --");
    let mut src = Ipsum::new(chain);
    for _ in 0..50 {
        let text = match src.read(60) {
            ReadOutcome::Bytes(text) => text,
            other => panic!("no text: {:?}", other),
        };
        assert_eq!(text.len(), 60);
        assert!(text.iter().all(|b| b"RedBlu ".contains(b)));
        assert!(text.iter().any(|b| *b != b' '));
    }
    let mut fresh = Ipsum::new({
        let mut chain = MarkovChain::new();
        chain.learn("-- -- red -- -- blue -- -- , red -- blue --");
        chain
    });
    let first = match fresh.read(1) {
        ReadOutcome::Bytes(first) => first,
        other => panic!("no text: {:?}", other),
    };
    assert!(first == b"R".to_vec() || first == b"B".to_vec());
}

#[test]
fn chain_that_has_learned_nothing_gives_no_text() {
    let mut src = Ipsum::new(MarkovChain::new());
    assert_eq!(src.read(16), ReadOutcome::Bytes(vec![]));
    let made = App::new(80, 1024, Ipsum::new(MarkovChain::new()));
    assert!(matches!(made, Err(SessionError::ExhaustedSource)));
}

#[test]
fn session_over_generated_text_fills_its_lines() {
    let mut chain = MarkovChain::new();
    chain.learn(lipsum::LOREM_IPSUM);
    chain.learn(lipsum::LIBER_PRIMUS);
    let mut app = match App::new(20, 30, Ipsum::new(chain)) {
        Ok(app) => app,
        Err(e) => panic!("no session: {:?}", e),
    };
    assert_eq!(app.line().len(), 20);
    assert!(app.line().iter().all(|b| b.is_ascii_graphic() || *b == b' '));
    let line = app.line().clone();
    for b in line {
        app.eat(b as char);
    }
    assert_eq!((app.right(), app.wrong()), (20, 0));
    assert_eq!(app.newline(), Ok(()));
    assert_eq!(app.line().len(), 10);
    assert_eq!(app.line()[0], b' ');
}
