//! The words of the interactive console and the actions they name.

use vstd::prelude::*;

verus! {

/// An action of the interactive console.
#[derive(PartialEq, Eq, Structural, Clone, Copy, Debug)]
pub enum ReplAction {
    /// `quit`: disconnect and exit.
    Quit,
    /// `awake`: play the "I'm awake" animation.
    Awake,
    /// `servomove` or `sm`: move a servo.
    ServoMove,
    /// `servocolor` or `sc`: set a servo light.
    ServoColor,
    /// `eyecolor` or `ec`: set the eye colour.
    EyeColor,
    /// `chestlight` or `cl`: turn a chest light on or off.
    ChestLight,
    /// `move`: drive the wheels for a while.
    Move,
    /// Anything else.
    Unknown,
}

/// The ASCII bytes of `quit`.
pub open spec fn word_quit() -> Seq<u8> {
    seq![0x71u8, 0x75, 0x69, 0x74]
}

/// The ASCII bytes of `awake`.
pub open spec fn word_awake() -> Seq<u8> {
    seq![0x61u8, 0x77, 0x61, 0x6b, 0x65]
}

/// The ASCII bytes of `servomove`.
pub open spec fn word_servomove() -> Seq<u8> {
    seq![0x73u8, 0x65, 0x72, 0x76, 0x6f, 0x6d, 0x6f, 0x76, 0x65]
}

/// The ASCII bytes of `sm`.
pub open spec fn word_sm() -> Seq<u8> {
    seq![0x73u8, 0x6d]
}

/// The ASCII bytes of `servocolor`.
pub open spec fn word_servocolor() -> Seq<u8> {
    seq![0x73u8, 0x65, 0x72, 0x76, 0x6f, 0x63, 0x6f, 0x6c, 0x6f, 0x72]
}

/// The ASCII bytes of `sc`.
pub open spec fn word_sc() -> Seq<u8> {
    seq![0x73u8, 0x63]
}

/// The ASCII bytes of `eyecolor`.
pub open spec fn word_eyecolor() -> Seq<u8> {
    seq![0x65u8, 0x79, 0x65, 0x63, 0x6f, 0x6c, 0x6f, 0x72]
}

/// The ASCII bytes of `ec`.
pub open spec fn word_ec() -> Seq<u8> {
    seq![0x65u8, 0x63]
}

/// The ASCII bytes of `chestlight`.
pub open spec fn word_chestlight() -> Seq<u8> {
    seq![0x63u8, 0x68, 0x65, 0x73, 0x74, 0x6c, 0x69, 0x67, 0x68, 0x74]
}

/// The ASCII bytes of `cl`.
pub open spec fn word_cl() -> Seq<u8> {
    seq![0x63u8, 0x6c]
}

/// The ASCII bytes of `move`.
pub open spec fn word_move() -> Seq<u8> {
    seq![0x6du8, 0x6f, 0x76, 0x65]
}

/// The action that a (trimmed) input line names; words match exactly.
pub open spec fn action_for(word: Seq<u8>) -> ReplAction {
    if word == word_quit() {
        ReplAction::Quit
    } else if word == word_awake() {
        ReplAction::Awake
    } else if word == word_servomove() || word == word_sm() {
        ReplAction::ServoMove
    } else if word == word_servocolor() || word == word_sc() {
        ReplAction::ServoColor
    } else if word == word_eyecolor() || word == word_ec() {
        ReplAction::EyeColor
    } else if word == word_chestlight() || word == word_cl() {
        ReplAction::ChestLight
    } else if word == word_move() {
        ReplAction::Move
    } else {
        ReplAction::Unknown
    }
}

/// Whether two byte strings are equal.
fn bytes_eq(a: &[u8], b: &[u8]) -> (r: bool)
    ensures
        r == (a@ == b@),
{
    if a.len() != b.len() {
        return false;
    }
    let mut i: usize = 0;
    while i < a.len()
        invariant
            a@.len() == b@.len(),
            i <= a@.len(),
            forall|k: int| 0 <= k < i ==> a@[k] == b@[k],
        decreases a@.len() - i,
    {
        if a[i] != b[i] {
            return false;
        }
        i = i + 1;
    }
    assert(a@ == b@);
    true
}

/// The action that a trimmed input line names.
pub fn parse_action(word: &[u8]) -> (a: ReplAction)
    ensures
        a == action_for(word@),
{
    let quit: [u8; 4] = [0x71, 0x75, 0x69, 0x74];
    let awake: [u8; 5] = [0x61, 0x77, 0x61, 0x6b, 0x65];
    let servomove: [u8; 9] = [0x73, 0x65, 0x72, 0x76, 0x6f, 0x6d, 0x6f, 0x76, 0x65];
    let sm: [u8; 2] = [0x73, 0x6d];
    let servocolor: [u8; 10] = [0x73, 0x65, 0x72, 0x76, 0x6f, 0x63, 0x6f, 0x6c, 0x6f, 0x72];
    let sc: [u8; 2] = [0x73, 0x63];
    let eyecolor: [u8; 8] = [0x65, 0x79, 0x65, 0x63, 0x6f, 0x6c, 0x6f, 0x72];
    let ec: [u8; 2] = [0x65, 0x63];
    let chestlight: [u8; 10] = [0x63, 0x68, 0x65, 0x73, 0x74, 0x6c, 0x69, 0x67, 0x68, 0x74];
    let cl: [u8; 2] = [0x63, 0x6c];
    let move_word: [u8; 4] = [0x6d, 0x6f, 0x76, 0x65];
    assert(quit@ == word_quit());
    assert(awake@ == word_awake());
    assert(servomove@ == word_servomove());
    assert(sm@ == word_sm());
    assert(servocolor@ == word_servocolor());
    assert(sc@ == word_sc());
    assert(eyecolor@ == word_eyecolor());
    assert(ec@ == word_ec());
    assert(chestlight@ == word_chestlight());
    assert(cl@ == word_cl());
    assert(move_word@ == word_move());
    if bytes_eq(word, &quit) {
        ReplAction::Quit
    } else if bytes_eq(word, &awake) {
        ReplAction::Awake
    } else if bytes_eq(word, &servomove) || bytes_eq(word, &sm) {
        ReplAction::ServoMove
    } else if bytes_eq(word, &servocolor) || bytes_eq(word, &sc) {
        ReplAction::ServoColor
    } else if bytes_eq(word, &eyecolor) || bytes_eq(word, &ec) {
        ReplAction::EyeColor
    } else if bytes_eq(word, &chestlight) || bytes_eq(word, &cl) {
        ReplAction::ChestLight
    } else if bytes_eq(word, &move_word) {
        ReplAction::Move
    } else {
        ReplAction::Unknown
    }
}

} // verus!
