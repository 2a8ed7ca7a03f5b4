use crate::game::{keys_of, views_of, Game, GameItem, Resource};
use std::sync::Arc;
use vstd::prelude::*;

verus! {

/// The chess catalog and a few well-known openings as sequences of its keys.
pub struct ChessGame;

/// The keys of the pawn moves, in catalog order.
pub open spec fn pawn_keys() -> Seq<Seq<char>> {
    seq!["e4"@, "d4"@, "c4"@, "e5"@, "d5"@, "c5"@]
}

/// The keys of the knight moves, in catalog order.
pub open spec fn knight_keys() -> Seq<Seq<char>> {
    seq!["nf3"@, "nc3"@, "nf6"@, "nc6"@]
}

/// The keys of the bishop moves, in catalog order.
pub open spec fn bishop_keys() -> Seq<Seq<char>> {
    seq!["bc4"@, "bb5"@, "bc5"@, "be7"@]
}

/// The keys of the rook moves, in catalog order.
pub open spec fn rook_keys() -> Seq<Seq<char>> {
    seq!["re1"@, "rd1"@]
}

/// The keys of the queen moves, in catalog order.
pub open spec fn queen_keys() -> Seq<Seq<char>> {
    seq!["qe2"@, "qd2"@]
}

/// The keys of the king moves, in catalog order.
pub open spec fn king_keys() -> Seq<Seq<char>> {
    seq!["ke2"@]
}

/// The keys of the special moves, in catalog order.
pub open spec fn special_keys() -> Seq<Seq<char>> {
    seq!["o-o"@, "o-o-o"@]
}

/// The keys of the whole chess catalog, in catalog order.
pub open spec fn chess_keys() -> Seq<Seq<char>> {
    pawn_keys() + knight_keys() + bishop_keys() + rook_keys() + queen_keys() + king_keys() + special_keys()
}

/// A chess move of the catalog costs one move and uses one "Move Number".
pub open spec fn costs_one_move(it: Arc<GameItem>) -> bool {
    &&& it.time_cost == 1
    &&& it.resources@.len() == 1
    &&& it.resources@[0].name@ == "Move Number"@
    &&& it.resources@[0].amount == 1
}

/// Every item of the sequence costs one move.
pub open spec fn all_cost_one_move(items: Seq<Arc<GameItem>>) -> bool {
    forall|i: int| 0 <= i < items.len() ==> costs_one_move(#[trigger] items[i])
}

/// The length and first characters of each key, which tell the keys apart.
proof fn lemma_key_chars()
    ensures
        "e4"@.len() == 2 && "e4"@[0] == 'e' && "e4"@[1] == '4',
        "d4"@.len() == 2 && "d4"@[0] == 'd' && "d4"@[1] == '4',
        "c4"@.len() == 2 && "c4"@[0] == 'c' && "c4"@[1] == '4',
        "e5"@.len() == 2 && "e5"@[0] == 'e' && "e5"@[1] == '5',
        "d5"@.len() == 2 && "d5"@[0] == 'd' && "d5"@[1] == '5',
        "c5"@.len() == 2 && "c5"@[0] == 'c' && "c5"@[1] == '5',
        "nf3"@.len() == 3 && "nf3"@[0] == 'n' && "nf3"@[1] == 'f' && "nf3"@[2] == '3',
        "nc3"@.len() == 3 && "nc3"@[0] == 'n' && "nc3"@[1] == 'c' && "nc3"@[2] == '3',
        "nf6"@.len() == 3 && "nf6"@[0] == 'n' && "nf6"@[1] == 'f' && "nf6"@[2] == '6',
        "nc6"@.len() == 3 && "nc6"@[0] == 'n' && "nc6"@[1] == 'c' && "nc6"@[2] == '6',
        "bc4"@.len() == 3 && "bc4"@[0] == 'b' && "bc4"@[1] == 'c' && "bc4"@[2] == '4',
        "bb5"@.len() == 3 && "bb5"@[0] == 'b' && "bb5"@[1] == 'b' && "bb5"@[2] == '5',
        "bc5"@.len() == 3 && "bc5"@[0] == 'b' && "bc5"@[1] == 'c' && "bc5"@[2] == '5',
        "be7"@.len() == 3 && "be7"@[0] == 'b' && "be7"@[1] == 'e' && "be7"@[2] == '7',
        "re1"@.len() == 3 && "re1"@[0] == 'r' && "re1"@[1] == 'e' && "re1"@[2] == '1',
        "rd1"@.len() == 3 && "rd1"@[0] == 'r' && "rd1"@[1] == 'd' && "rd1"@[2] == '1',
        "qe2"@.len() == 3 && "qe2"@[0] == 'q' && "qe2"@[1] == 'e' && "qe2"@[2] == '2',
        "qd2"@.len() == 3 && "qd2"@[0] == 'q' && "qd2"@[1] == 'd' && "qd2"@[2] == '2',
        "ke2"@.len() == 3 && "ke2"@[0] == 'k' && "ke2"@[1] == 'e' && "ke2"@[2] == '2',
        "o-o"@.len() == 3 && "o-o"@[0] == 'o' && "o-o"@[1] == '-' && "o-o"@[2] == 'o',
        "o-o-o"@.len() == 5 && "o-o-o"@[0] == 'o' && "o-o-o"@[1] == '-' && "o-o-o"@[2] == 'o',
{
    reveal_strlit("e4");
    reveal_strlit("d4");
    reveal_strlit("c4");
    reveal_strlit("e5");
    reveal_strlit("d5");
    reveal_strlit("c5");
    reveal_strlit("nf3");
    reveal_strlit("nc3");
    reveal_strlit("nf6");
    reveal_strlit("nc6");
    reveal_strlit("bc4");
    reveal_strlit("bb5");
    reveal_strlit("bc5");
    reveal_strlit("be7");
    reveal_strlit("re1");
    reveal_strlit("rd1");
    reveal_strlit("qe2");
    reveal_strlit("qd2");
    reveal_strlit("ke2");
    reveal_strlit("o-o");
    reveal_strlit("o-o-o");
}

impl ChessGame {
    /// The chess catalog: every opening move that a plan can use, each with
    /// a time cost of one move.
    pub fn create() -> (r: Game)
        ensures
            r.id@ == "chess"@,
            r.name@ == "Chess"@,
            r.description@ == "Classic chess game - plan your move sequences and opening strategies"@,
            r.keys() == chess_keys(),
            all_cost_one_move(r.items@),
            r.wf(),
    {
        let mut game = Game::new("chess", "Chess").with_description(
            "Classic chess game - plan your move sequences and opening strategies",
        );
        proof {
            assert(game.keys() =~= Seq::<Seq<char>>::empty());
        }
        Self::add_pawn_moves(&mut game);
        Self::add_knight_moves(&mut game);
        Self::add_bishop_moves(&mut game);
        Self::add_rook_moves(&mut game);
        Self::add_queen_moves(&mut game);
        Self::add_king_moves(&mut game);
        Self::add_special_moves(&mut game);
        proof {
            assert(game.keys() =~= chess_keys());
        }
        game
    }

    /// Adds a move whose key is not yet in the catalog; it costs one move and
    /// uses one "Move Number".
    fn add_move(game: &mut Game, id: &str, name: &str, category: &str, description: &str)
        requires
            old(game).wf(),
            !old(game).keys().contains(id@),
            all_cost_one_move(old(game).items@),
        ensures
            final(game).id == old(game).id,
            final(game).name == old(game).name,
            final(game).description == old(game).description,
            final(game).keys() == old(game).keys().push(id@),
            final(game).items@.last().name@ == name@,
            final(game).items@.last().category@ == category@,
            final(game).items@.last().description@ == description@,
            all_cost_one_move(final(game).items@),
            final(game).wf(),
    {
        let item = GameItem::new(id, name, category).with_description(description).with_time_cost(
            1,
        ).with_resource(Resource::new("Move Number", 1));
        let ghost before = game.items@;
        proof {
            if crate::game::has_key(before, id@) {
                let i = choose|i: int| 0 <= i < before.len() && before[i].id@ == id@;
                assert(keys_of(before)[i] == id@);
            }
        }
        game.add_item(item);
        proof {
            assert(keys_of(game.items@) =~= keys_of(before).push(id@));
            assert(game.items@[before.len() as int] == item);
        }
    }

    fn add_pawn_moves(game: &mut Game)
        requires
            old(game).wf(),
            all_cost_one_move(old(game).items@),
            old(game).keys() == Seq::<Seq<char>>::empty(),
        ensures
            final(game).id == old(game).id,
            final(game).name == old(game).name,
            final(game).description == old(game).description,
            final(game).keys() == pawn_keys(),
            all_cost_one_move(final(game).items@),
            final(game).wf(),
    {
        proof {
            lemma_key_chars();
        }
        Self::add_move(game, "e4", "e4", "Pawn Opening", "King's pawn opening - advance pawn to e4");
        Self::add_move(game, "d4", "d4", "Pawn Opening", "Queen's pawn opening - advance pawn to d4");
        Self::add_move(game, "c4", "c4", "Pawn Opening", "English Opening - advance pawn to c4");
        Self::add_move(game, "e5", "e5", "Pawn Response", "Symmetrical response - advance pawn to e5");
        Self::add_move(game, "d5", "d5", "Pawn Response", "Advance pawn to d5");
        Self::add_move(game, "c5", "c5", "Pawn Response", "Sicilian Defense - advance pawn to c5");
        proof {
            assert(game.keys() =~= pawn_keys());
        }
    }

    fn add_knight_moves(game: &mut Game)
        requires
            old(game).wf(),
            all_cost_one_move(old(game).items@),
            old(game).keys() == pawn_keys(),
        ensures
            final(game).id == old(game).id,
            final(game).name == old(game).name,
            final(game).description == old(game).description,
            final(game).keys() == pawn_keys() + knight_keys(),
            all_cost_one_move(final(game).items@),
            final(game).wf(),
    {
        proof {
            lemma_key_chars();
        }
        Self::add_move(game, "nf3", "Nf3", "Knight Development", "Develop knight to f3");
        Self::add_move(game, "nc3", "Nc3", "Knight Development", "Develop knight to c3");
        Self::add_move(game, "nf6", "Nf6", "Knight Development", "Develop knight to f6");
        Self::add_move(game, "nc6", "Nc6", "Knight Development", "Develop knight to c6");
        proof {
            assert(game.keys() =~= pawn_keys() + knight_keys());
        }
    }

    fn add_bishop_moves(game: &mut Game)
        requires
            old(game).wf(),
            all_cost_one_move(old(game).items@),
            old(game).keys() == pawn_keys() + knight_keys(),
        ensures
            final(game).id == old(game).id,
            final(game).name == old(game).name,
            final(game).description == old(game).description,
            final(game).keys() == pawn_keys() + knight_keys() + bishop_keys(),
            all_cost_one_move(final(game).items@),
            final(game).wf(),
    {
        proof {
            lemma_key_chars();
        }
        Self::add_move(game, "bc4", "Bc4", "Bishop Development", "Italian Game - develop bishop to c4");
        Self::add_move(game, "bb5", "Bb5", "Bishop Development", "Ruy Lopez - develop bishop to b5");
        Self::add_move(game, "bc5", "Bc5", "Bishop Development", "Develop bishop to c5");
        Self::add_move(game, "be7", "Be7", "Bishop Development", "Develop bishop to e7");
        proof {
            assert(game.keys() =~= pawn_keys() + knight_keys() + bishop_keys());
        }
    }

    fn add_rook_moves(game: &mut Game)
        requires
            old(game).wf(),
            all_cost_one_move(old(game).items@),
            old(game).keys() == pawn_keys() + knight_keys() + bishop_keys(),
        ensures
            final(game).id == old(game).id,
            final(game).name == old(game).name,
            final(game).description == old(game).description,
            final(game).keys() == pawn_keys() + knight_keys() + bishop_keys() + rook_keys(),
            all_cost_one_move(final(game).items@),
            final(game).wf(),
    {
        proof {
            lemma_key_chars();
        }
        Self::add_move(game, "re1", "Re1", "Rook Activation", "Move rook to e1");
        Self::add_move(game, "rd1", "Rd1", "Rook Activation", "Move rook to d1");
        proof {
            assert(game.keys() =~= pawn_keys() + knight_keys() + bishop_keys() + rook_keys());
        }
    }

    fn add_queen_moves(game: &mut Game)
        requires
            old(game).wf(),
            all_cost_one_move(old(game).items@),
            old(game).keys() == pawn_keys() + knight_keys() + bishop_keys() + rook_keys(),
        ensures
            final(game).id == old(game).id,
            final(game).name == old(game).name,
            final(game).description == old(game).description,
            final(game).keys() == pawn_keys() + knight_keys() + bishop_keys() + rook_keys() + queen_keys(),
            all_cost_one_move(final(game).items@),
            final(game).wf(),
    {
        proof {
            lemma_key_chars();
        }
        Self::add_move(game, "qe2", "Qe2", "Queen Development", "Move queen to e2");
        Self::add_move(game, "qd2", "Qd2", "Queen Development", "Move queen to d2");
        proof {
            assert(game.keys() =~= pawn_keys() + knight_keys() + bishop_keys() + rook_keys() + queen_keys());
        }
    }

    fn add_king_moves(game: &mut Game)
        requires
            old(game).wf(),
            all_cost_one_move(old(game).items@),
            old(game).keys() == pawn_keys() + knight_keys() + bishop_keys() + rook_keys() + queen_keys(),
        ensures
            final(game).id == old(game).id,
            final(game).name == old(game).name,
            final(game).description == old(game).description,
            final(game).keys() == pawn_keys() + knight_keys() + bishop_keys() + rook_keys() + queen_keys() + king_keys(),
            all_cost_one_move(final(game).items@),
            final(game).wf(),
    {
        proof {
            lemma_key_chars();
        }
        Self::add_move(game, "ke2", "Ke2", "King Move", "Move king to e2 (unusual)");
        proof {
            assert(game.keys() =~= pawn_keys() + knight_keys() + bishop_keys() + rook_keys() + queen_keys() + king_keys());
        }
    }

    fn add_special_moves(game: &mut Game)
        requires
            old(game).wf(),
            all_cost_one_move(old(game).items@),
            old(game).keys() == pawn_keys() + knight_keys() + bishop_keys() + rook_keys() + queen_keys() + king_keys(),
        ensures
            final(game).id == old(game).id,
            final(game).name == old(game).name,
            final(game).description == old(game).description,
            final(game).keys() == pawn_keys() + knight_keys() + bishop_keys() + rook_keys() + queen_keys() + king_keys() + special_keys(),
            all_cost_one_move(final(game).items@),
            final(game).wf(),
    {
        proof {
            lemma_key_chars();
        }
        Self::add_move(game, "o-o", "O-O", "Castling", "Castle kingside");
        Self::add_move(game, "o-o-o", "O-O-O", "Castling", "Castle queenside");
        proof {
            assert(game.keys() =~= pawn_keys() + knight_keys() + bishop_keys() + rook_keys() + queen_keys() + king_keys() + special_keys());
        }
    }

    /// The move number and the side (`true` for White) of the step at
    /// `index` of a game's sequence, where White and Black alternate and
    /// White begins.
    pub fn turn_of_step(index: usize) -> (r: (usize, bool))
        ensures
            r.0 == index / 2 + 1,
            r.1 == (index % 2 == 0),
    {
        (index / 2 + 1, index % 2 == 0)
    }

    /// The keys of the Italian Game opening, in order of play.
    pub fn italian_game_sample() -> (r: Vec<String>)
        ensures
            views_of(r@) == seq!["e4"@, "e5"@, "nf3"@, "nc6"@, "bc4"@, "bc5"@],
    {
        let r = vec!["e4".to_owned(), "e5".to_owned(), "nf3".to_owned(), "nc6".to_owned(), "bc4".to_owned(), "bc5".to_owned()];
        proof {
            assert(views_of(r@) =~= seq!["e4"@, "e5"@, "nf3"@, "nc6"@, "bc4"@, "bc5"@]);
        }
        r
    }

    /// The keys of the Ruy Lopez opening, in order of play.
    pub fn ruy_lopez_sample() -> (r: Vec<String>)
        ensures
            views_of(r@) == seq!["e4"@, "e5"@, "nf3"@, "nc6"@, "bb5"@],
    {
        let r = vec!["e4".to_owned(), "e5".to_owned(), "nf3".to_owned(), "nc6".to_owned(), "bb5".to_owned()];
        proof {
            assert(views_of(r@) =~= seq!["e4"@, "e5"@, "nf3"@, "nc6"@, "bb5"@]);
        }
        r
    }

    /// The keys of the Sicilian Defense, in order of play.
    pub fn sicilian_defense_sample() -> (r: Vec<String>)
        ensures
            views_of(r@) == seq!["e4"@, "c5"@, "nf3"@, "d6"@, "d4"@],
    {
        let r = vec!["e4".to_owned(), "c5".to_owned(), "nf3".to_owned(), "d6".to_owned(), "d4".to_owned()];
        proof {
            assert(views_of(r@) =~= seq!["e4"@, "c5"@, "nf3"@, "d6"@, "d4"@]);
        }
        r
    }
}

} // verus!
