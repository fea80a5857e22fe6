//! The player's character as far as a level decides about it: which state
//! it is in, and what landing on a platform does to it.

use crate::collision::{point_in_rect, point_inside};
use crate::level::Platform;
use crate::scalar::{Scalar, Vec2, ONE_BITS};
use vstd::prelude::*;

verus! {

/// The bit pattern of the number minus two hundred.
pub const MINUS_TWO_HUNDRED_BITS: u32 = 0xc348_0000;

/// The bit pattern of the number ninety-six.
pub const NINETY_SIX_BITS: u32 = 0x42c0_0000;

/// The bit pattern of the number one hundred and fourteen.
pub const HUNDRED_FOURTEEN_BITS: u32 = 0x42e4_0000;

/// What the character is doing.
#[derive(Clone, Copy, Debug, PartialEq, Eq, Structural)]
#[non_exhaustive]
pub enum PlayerState {
    Grounded,
    Jumping,
    Falling,
}

/// Why a change of state is asked for.
#[derive(Clone, Copy, Debug, PartialEq, Eq, Structural)]
#[non_exhaustive]
pub enum TransReason {
    GroudCollision,
    JumpStart,
    NothingBellow,
}

/// The character: where it is, how fast it moves, how large it is, what it
/// is doing, and the friction of what it last stood on.
#[derive(Clone, Copy, Debug, PartialEq, Eq, Structural)]
pub struct Character {
    pub pos: Vec2,
    pub speed: Vec2,
    pub size: Vec2,
    pub state: PlayerState,
    pub friction: Scalar,
}

/// Whether there is a rule for a character in `state` that is asked to go
/// to `new_state` for `reason`.
pub open spec fn has_rule(state: PlayerState, new_state: PlayerState, reason: TransReason) -> bool {
    match (state, new_state, reason) {
        (PlayerState::Grounded, PlayerState::Grounded, _) => true,
        (PlayerState::Grounded, PlayerState::Jumping, TransReason::JumpStart) => true,
        (PlayerState::Grounded, PlayerState::Falling, TransReason::NothingBellow) => true,
        (PlayerState::Jumping, PlayerState::Jumping, _) => true,
        (PlayerState::Jumping, PlayerState::Falling, TransReason::NothingBellow) => true,
        (PlayerState::Jumping, PlayerState::Grounded, TransReason::GroudCollision) => true,
        (PlayerState::Falling, PlayerState::Falling, _) => true,
        (PlayerState::Falling, PlayerState::Grounded, TransReason::GroudCollision) => true,
        _ => false,
    }
}

/// The state after a request that has a rule. Every such request is
/// granted, but one: a jump turns into a fall only once the character moves
/// downwards.
pub open spec fn state_after(
    state: PlayerState,
    new_state: PlayerState,
    moving_down: bool,
) -> PlayerState {
    if state == PlayerState::Jumping && new_state == PlayerState::Falling && !moving_down {
        state
    } else {
        new_state
    }
}

impl Character {
    /// The character at the start of a game: falling from above the origin.
    pub open spec fn initial() -> Character {
        Character {
            pos: Vec2 { x: Scalar { bits: 0 }, y: Scalar { bits: MINUS_TWO_HUNDRED_BITS } },
            speed: Vec2 { x: Scalar { bits: 0 }, y: Scalar { bits: 0 } },
            size: Vec2 {
                x: Scalar { bits: NINETY_SIX_BITS },
                y: Scalar { bits: HUNDRED_FOURTEEN_BITS },
            },
            state: PlayerState::Falling,
            friction: Scalar { bits: ONE_BITS },
        }
    }

    /// Whether one of the two lower corners lies in the platform.
    pub open spec fn stands_on(self, platform: Platform) -> bool {
        let bottom = self.pos.y.spec_plus(self.size.y);
        point_inside(Vec2 { x: self.pos.x, y: bottom }, platform.pos, platform.size)
            || point_inside(
            Vec2 { x: self.pos.x.spec_plus(self.size.x), y: bottom },
            platform.pos,
            platform.size,
        )
    }

    /// The character after it landed on the platform: grounded, at rest
    /// vertically, its feet on the upper edge, with the platform's friction.
    pub open spec fn landed(self, platform: Platform) -> Character {
        Character {
            pos: Vec2 { x: self.pos.x, y: platform.pos.y.spec_minus(self.size.y) },
            speed: Vec2 { x: self.speed.x, y: Scalar { bits: 0 } },
            size: self.size,
            state: PlayerState::Grounded,
            friction: platform.friction,
        }
    }

    pub fn new() -> (character: Character)
        ensures
            character == Self::initial(),
    {
        Character {
            pos: Vec2::new(Scalar::zero(), Scalar::from_bits(MINUS_TWO_HUNDRED_BITS)),
            speed: Vec2::splat(Scalar::zero()),
            size: Vec2::new(
                Scalar::from_bits(NINETY_SIX_BITS),
                Scalar::from_bits(HUNDRED_FOURTEEN_BITS),
            ),
            state: PlayerState::Falling,
            friction: Scalar::one(),
        }
    }

    pub fn get_pos(&self) -> (pos: Vec2)
        ensures
            pos == self.pos,
    {
        self.pos
    }

    pub fn get_size(&self) -> (size: Vec2)
        ensures
            size == self.size,
    {
        self.size
    }

    pub fn get_speed(&self) -> (speed: Vec2)
        ensures
            speed == self.speed,
    {
        self.speed
    }

    pub fn get_state(&self) -> (state: PlayerState)
        ensures
            state == self.state,
    {
        self.state
    }

    /// Whether there is a rule for the request.
    pub fn can_request(&self, new_state: PlayerState, reason: TransReason) -> (known: bool)
        ensures
            known == has_rule(self.state, new_state, reason),
    {
        match (self.state, new_state, reason) {
            (PlayerState::Grounded, PlayerState::Grounded, _) => true,
            (PlayerState::Grounded, PlayerState::Jumping, TransReason::JumpStart) => true,
            (PlayerState::Grounded, PlayerState::Falling, TransReason::NothingBellow) => true,
            (PlayerState::Jumping, PlayerState::Jumping, _) => true,
            (PlayerState::Jumping, PlayerState::Falling, TransReason::NothingBellow) => true,
            (PlayerState::Jumping, PlayerState::Grounded, TransReason::GroudCollision) => true,
            (PlayerState::Falling, PlayerState::Falling, _) => true,
            (PlayerState::Falling, PlayerState::Grounded, TransReason::GroudCollision) => true,
            _ => false,
        }
    }

    /// Asks for a change of state. Only the state changes.
    pub fn request_transition(&mut self, new_state: PlayerState, reason: TransReason)
        requires
            has_rule(old(self).state, new_state, reason),
        ensures
            *final(self) == (Character {
                state: state_after(
                    old(self).state,
                    new_state,
                    Scalar { bits: 0 }.num_lt(old(self).speed.y),
                ),
                ..*old(self)
            }),
    {
        match (self.state, new_state) {
            (PlayerState::Jumping, PlayerState::Falling) => {
                if self.speed.y.gt(Scalar::zero()) {
                    self.state = PlayerState::Falling;
                }
            },
            _ => {
                self.state = new_state;
            },
        }
    }

    /// Lands the character on the platform if one of its lower corners lies
    /// in it, and says whether it did.
    pub fn bottom_collision(&mut self, platform: &Platform) -> (landed: bool)
        ensures
            landed == old(self).stands_on(*platform),
            *final(self) == if landed {
                old(self).landed(*platform)
            } else {
                *old(self)
            },
    {
        let bottom = self.pos.y.plus(self.size.y);
        let bottom_left = point_in_rect(Vec2::new(self.pos.x, bottom), platform.pos, platform.size);
        let bottom_right = point_in_rect(
            Vec2::new(self.pos.x.plus(self.size.x), bottom),
            platform.pos,
            platform.size,
        );
        if bottom_left || bottom_right {
            self.request_transition(PlayerState::Grounded, TransReason::GroudCollision);
            self.pos.y = platform.pos.y.minus(self.size.y);
            self.speed.y = Scalar::zero();
            self.friction = platform.friction;
            true
        } else {
            false
        }
    }
}

} // verus!
