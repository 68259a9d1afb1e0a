//! The skill menu: pick one of the usable skills, confirm or go back.
use vstd::prelude::*;
use crate::model::{Skill, Skills};

verus! {

/// Input to the skill menu.
#[derive(Clone, Debug)]
pub enum Message {
    /// Reset to no selection.
    Initial,
    /// The player picked a skill.
    OnSelectSkill(Skill),
    /// The player confirmed the selection.
    OnClickNext,
    /// The player went back; the selection is dropped.
    OnClickBack,
}

/// State of the skill menu: the skills offered and the one selected.
#[derive(Clone, Debug)]
pub struct UseSkillMenu {
    pub skills: Skills,
    pub skill: Option<Skill>,
}

impl UseSkillMenu {
    /// A menu offering `skills`, with nothing selected.
    pub fn new(skills: Skills) -> (r: UseSkillMenu)
        ensures
            r.skills == skills,
            r.skill is None,
    {
        UseSkillMenu { skills, skill: None }
    }

    /// Reacts to `message`: a reset or going back clears the selection, a
    /// pick replaces it, a confirmation leaves it as it is. The skills
    /// offered never change.
    pub fn update(&mut self, message: Message)
        ensures
            final(self).skills == old(self).skills,
            final(self).skill == match message {
                Message::OnSelectSkill(s) => Some(s),
                Message::OnClickNext => old(self).skill,
                _ => None,
            },
    {
        match message {
            Message::Initial => {
                self.skill = None;
            },
            Message::OnSelectSkill(skill) => {
                self.skill = Some(skill);
            },
            Message::OnClickNext => {},
            Message::OnClickBack => {
                self.skill = None;
            },
        }
    }
}

} // verus!
