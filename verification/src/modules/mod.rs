pub mod all_pass;
pub mod biquad;
pub mod comb;
pub mod delay_line;
pub mod freeverb;
pub mod lowpass_feedback_comb;

pub use all_pass::AllPass;
pub use comb::Comb;
pub use delay_line::DelayLine;
pub use freeverb::Freeverb;
pub use lowpass_feedback_comb::LowpassFeedbackComb;
