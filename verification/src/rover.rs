use vstd::prelude::*;

use crate::radar::Direction;
use crate::radar::ObstacleHit;
use crate::radar::Position;
use crate::radar::Radar;
use crate::radar::left_of;
use crate::radar::move_outcome;
use crate::radar::obstacle_set;
use crate::radar::right_of;
use crate::radar::stepped;

verus! {

/// The interpreter's single failure mode, carrying the radar's report of the
/// obstacle that blocked a move.
pub enum RoverError {
    ObstacleHit(ObstacleHit),
}

/// The state a command sequence drives the rover to, processed strictly left
/// to right on a grid of boundary `b` with obstacles `obs`, from position `p`
/// facing `d`: the final position, the final direction, and whether every
/// command succeeded. 'l' and 'r' turn, 'f' and 'b' move, any other character
/// is ignored. The first blocked move stops processing: the state of the last
/// successful command is kept and the run reports failure.
pub open spec fn run_commands(
    b: int,
    obs: Set<(int, int)>,
    p: (int, int),
    d: Direction,
    cmds: Seq<char>,
) -> ((int, int), Direction, bool)
    decreases cmds.len(),
{
    if cmds.len() == 0 {
        (p, d, true)
    } else if cmds[0] == 'l' {
        run_commands(b, obs, p, left_of(d), cmds.skip(1))
    } else if cmds[0] == 'r' {
        run_commands(b, obs, p, right_of(d), cmds.skip(1))
    } else if cmds[0] == 'f' || cmds[0] == 'b' {
        let (q, ok) = move_outcome(b, obs, p, d, cmds[0] == 'f');
        if ok {
            run_commands(b, obs, q, d, cmds.skip(1))
        } else {
            (p, d, false)
        }
    } else {
        run_commands(b, obs, p, d, cmds.skip(1))
    }
}

/// The unit the external caller addresses: a command interpreter over exactly
/// one radar, with no state of its own.
pub struct Rover {
    radar: Radar,
}

impl Rover {
    /// The radar this rover delegates to.
    pub closed spec fn spec_radar(self) -> Radar {
        self.radar
    }

    /// A rover on an obstacle-free grid of the given boundary, at the origin,
    /// facing North.
    pub fn with_boundaries(boundary: i32) -> (r: Rover)
        requires
            0 <= boundary,
        ensures
            r.spec_radar().spec_boundary() == boundary,
            r.spec_radar().spec_position() == (0int, 0int),
            r.spec_radar().spec_direction() == Direction::NORTH,
            r.spec_radar().spec_obstacles() == Seq::<Position>::empty(),
            r.spec_radar().wf(),
    {
        Rover { radar: Radar::new(boundary, Position { x: 0, y: 0 }, Direction::NORTH) }
    }

    /// A rover around an already-constructed radar.
    pub fn with_radar(radar: Radar) -> (r: Rover)
        ensures
            r.spec_radar() == radar,
    {
        Rover { radar }
    }

    /// The current coordinate.
    pub fn position(&self) -> (r: Position)
        ensures
            r@ == self.spec_radar().spec_position(),
    {
        self.radar.position()
    }

    /// The current orientation.
    pub fn direction(&self) -> (r: Direction)
        ensures
            r == self.spec_radar().spec_direction(),
    {
        self.radar.direction()
    }

    /// Rotate a quarter turn counter-clockwise; always succeeds.
    pub fn turn_left(&mut self)
        ensures
            final(self).spec_radar().spec_direction() == left_of(
                old(self).spec_radar().spec_direction(),
            ),
            final(self).spec_radar().spec_boundary() == old(self).spec_radar().spec_boundary(),
            final(self).spec_radar().spec_position() == old(self).spec_radar().spec_position(),
            final(self).spec_radar().spec_obstacles() == old(self).spec_radar().spec_obstacles(),
    {
        self.radar.turn_left();
    }

    /// Rotate a quarter turn clockwise; always succeeds.
    pub fn turn_right(&mut self)
        ensures
            final(self).spec_radar().spec_direction() == right_of(
                old(self).spec_radar().spec_direction(),
            ),
            final(self).spec_radar().spec_boundary() == old(self).spec_radar().spec_boundary(),
            final(self).spec_radar().spec_position() == old(self).spec_radar().spec_position(),
            final(self).spec_radar().spec_obstacles() == old(self).spec_radar().spec_obstacles(),
    {
        self.radar.turn_right();
    }

    /// Attempt one step in the direction currently faced; an obstacle on the
    /// candidate cell blocks it and leaves the rover unchanged.
    pub fn move_forward(&mut self) -> (r: Result<(), RoverError>)
        requires
            old(self).spec_radar().wf(),
            old(self).spec_radar().can_step(),
        ensures
            final(self).spec_radar().spec_boundary() == old(self).spec_radar().spec_boundary(),
            final(self).spec_radar().spec_direction() == old(self).spec_radar().spec_direction(),
            final(self).spec_radar().spec_obstacles() == old(self).spec_radar().spec_obstacles(),
            ({
                let (q, ok) = move_outcome(
                    old(self).spec_radar().spec_boundary(),
                    obstacle_set(old(self).spec_radar().spec_obstacles()),
                    old(self).spec_radar().spec_position(),
                    old(self).spec_radar().spec_direction(),
                    true,
                );
                &&& final(self).spec_radar().spec_position() == q
                &&& (r is Ok <==> ok)
            }),
    {
        match self.radar.move_forward() {
            Ok(()) => Ok(()),
            Err(e) => Err(RoverError::ObstacleHit(e)),
        }
    }

    /// Attempt one step opposite to the direction currently faced; an obstacle
    /// on the candidate cell blocks it and leaves the rover unchanged.
    pub fn move_backward(&mut self) -> (r: Result<(), RoverError>)
        requires
            old(self).spec_radar().wf(),
            old(self).spec_radar().can_step(),
        ensures
            final(self).spec_radar().spec_boundary() == old(self).spec_radar().spec_boundary(),
            final(self).spec_radar().spec_direction() == old(self).spec_radar().spec_direction(),
            final(self).spec_radar().spec_obstacles() == old(self).spec_radar().spec_obstacles(),
            ({
                let (q, ok) = move_outcome(
                    old(self).spec_radar().spec_boundary(),
                    obstacle_set(old(self).spec_radar().spec_obstacles()),
                    old(self).spec_radar().spec_position(),
                    old(self).spec_radar().spec_direction(),
                    false,
                );
                &&& final(self).spec_radar().spec_position() == q
                &&& (r is Ok <==> ok)
            }),
    {
        match self.radar.move_backward() {
            Ok(()) => Ok(()),
            Err(e) => Err(RoverError::ObstacleHit(e)),
        }
    }

    /// Process a command sequence strictly left to right, dispatching each
    /// character to the radar. The first blocked move aborts the rest of the
    /// sequence: every earlier command stays committed, and the call reports
    /// the obstacle. Characters outside {'l', 'r', 'f', 'b'} are ignored.
    pub fn accept_commands(&mut self, commands: &[char]) -> (r: Result<(), RoverError>)
        requires
            old(self).spec_radar().wf(),
            old(self).spec_radar().can_step(),
            old(self).spec_radar().spec_boundary() < i32::MAX,
        ensures
            final(self).spec_radar().spec_boundary() == old(self).spec_radar().spec_boundary(),
            final(self).spec_radar().spec_obstacles() == old(self).spec_radar().spec_obstacles(),
            ({
                let (q, d2, ok) = run_commands(
                    old(self).spec_radar().spec_boundary(),
                    obstacle_set(old(self).spec_radar().spec_obstacles()),
                    old(self).spec_radar().spec_position(),
                    old(self).spec_radar().spec_direction(),
                    commands@,
                );
                &&& final(self).spec_radar().spec_position() == q
                &&& final(self).spec_radar().spec_direction() == d2
                &&& (r is Ok <==> ok)
            }),
    {
        let ghost b = self.spec_radar().spec_boundary();
        let ghost obs = obstacle_set(self.spec_radar().spec_obstacles());
        let ghost p0 = self.spec_radar().spec_position();
        let ghost d0 = self.spec_radar().spec_direction();
        let mut i: usize = 0;
        proof {
            assert(commands@.skip(0) =~= commands@);
        }
        while i < commands.len()
            invariant
                0 <= i <= commands@.len(),
                b == old(self).spec_radar().spec_boundary(),
                obs == obstacle_set(old(self).spec_radar().spec_obstacles()),
                p0 == old(self).spec_radar().spec_position(),
                d0 == old(self).spec_radar().spec_direction(),
                self.spec_radar().wf(),
                self.spec_radar().can_step(),
                self.spec_radar().spec_boundary() == b,
                b < i32::MAX,
                obstacle_set(self.spec_radar().spec_obstacles()) == obs,
                self.spec_radar().spec_obstacles() == old(self).spec_radar().spec_obstacles(),
                run_commands(
                    b,
                    obs,
                    self.spec_radar().spec_position(),
                    self.spec_radar().spec_direction(),
                    commands@.skip(i as int),
                ) == run_commands(b, obs, p0, d0, commands@),
            decreases commands@.len() - i,
        {
            proof {
                assert(commands@.skip(i as int)[0] == commands@[i as int]);
                assert(commands@.skip(i as int).skip(1) =~= commands@.skip(i as int + 1));
            }
            match commands[i] {
                'l' => self.turn_left(),
                'r' => self.turn_right(),
                'f' => {
                    match self.move_forward() {
                        Ok(()) => (),
                        Err(e) => {
                            return Err(e);
                        },
                    }
                },
                'b' => {
                    match self.move_backward() {
                        Ok(()) => (),
                        Err(e) => {
                            return Err(e);
                        },
                    }
                },
                _ => (),
            }
            i = i + 1;
        }
        Ok(())
    }
}

/// Law: in the command sequence ['f', 'l', 'f'] whose first move succeeds and
/// whose second forward move is blocked by an obstacle, processing aborts: the
/// run ends exactly in the state that ['f', 'l'] alone reaches, and reports
/// failure where the shorter run reports success.
pub proof fn lemma_abort_keeps_prefix(b: int, obs: Set<(int, int)>, p: (int, int), d: Direction)
    requires
        ({
            let (q1, ok1) = move_outcome(b, obs, p, d, true);
            &&& ok1
            &&& obs.contains(stepped(q1, left_of(d)))
        }),
    ensures
        ({
            let (q1, ok1) = move_outcome(b, obs, p, d, true);
            &&& run_commands(b, obs, p, d, seq!['f', 'l']) == ((q1, left_of(d), true))
            &&& run_commands(b, obs, p, d, seq!['f', 'l', 'f']) == ((q1, left_of(d), false))
        }),
{
    reveal_with_fuel(run_commands, 4);
    let (q1, ok1) = move_outcome(b, obs, p, d, true);
    assert(seq!['f', 'l', 'f'].skip(1) =~= seq!['l', 'f']);
    assert(seq!['l', 'f'].skip(1) =~= seq!['f']);
    assert(seq!['f', 'l'].skip(1) =~= seq!['l']);
    assert(run_commands(b, obs, p, d, seq!['f', 'l', 'f']) == run_commands(
        b,
        obs,
        q1,
        d,
        seq!['l', 'f'],
    ));
    assert(run_commands(b, obs, q1, d, seq!['l', 'f']) == run_commands(
        b,
        obs,
        q1,
        left_of(d),
        seq!['f'],
    ));
    assert(run_commands(b, obs, q1, left_of(d), seq!['f']) == ((q1, left_of(d), false)));
    assert(run_commands(b, obs, p, d, seq!['f', 'l']) == run_commands(b, obs, q1, d, seq!['l']));
    assert(run_commands(b, obs, q1, d, seq!['l']) == run_commands(
        b,
        obs,
        q1,
        left_of(d),
        Seq::<char>::empty(),
    )) by {
        assert(seq!['l'].skip(1) =~= Seq::<char>::empty());
    }
}

} // verus!
