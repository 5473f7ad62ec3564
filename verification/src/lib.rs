//! A 2D action-game character controller core: raw input is mapped to
//! semantic actions, actions to a discrete movement direction, and the
//! movement/combat context to a finite animation state, which a registry
//! resolves into a sprite-sheet frame range driven by a repeating timer.
pub mod actions;
pub mod animation;
pub mod app_state;
pub mod assoc;
pub mod controls;
pub mod direction;
pub mod movement;
pub mod player;
pub mod registry;
pub mod state;
pub mod state_machine;
pub mod timer;

pub use actions::Action;
pub use actions::ActionSet;
pub use app_state::AppState;
pub use app_state::GameState;
pub use controls::ActionCommand;
pub use controls::ActionMapping;
pub use controls::CommandQueue;
pub use direction::DirVec;
pub use direction::Direction;
pub use state_machine::AttackState;
pub use state_machine::MoveState;
pub use state_machine::StateInterface;
pub use state_machine::StateMachine;
pub use animation::AnimateEvent;
pub use animation::Animation;
pub use animation::AnimationAsset;
pub use animation::AnimationAssets;
pub use animation::AnimationClip;
pub use animation::AnimationIndices;
pub use animation::TextureAtlasState;
pub use movement::MoveEndEvent;
pub use movement::MoveEvent;
pub use player::Player;
pub use registry::PlayerAnimationClip;
pub use registry::PlayerAnimations;
pub use registry::PlayerSheets;
pub use state::State;
pub use timer::RepeatingTimer;
