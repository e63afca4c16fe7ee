//! A growth template: what a user says of their own development.

use crate::ident::{hyphenated, parsed_uuid, uuid_to_text};
use crate::models::Identified;
use vstd::prelude::*;

verus! {

/// A growth template.
#[derive(Debug, PartialEq, Eq)]
pub struct GrowthTemplate {
    pub id: u128,
    pub user_id: u128,
    pub core_competencies: String,
    pub developing_skills: String,
    pub recent_achievements: String,
    pub how_to_contribute: String,
}

/// A growth template, as a mathematical value.
pub struct GrowthTemplateView {
    pub id: u128,
    pub user_id: u128,
    pub core_competencies: Seq<char>,
    pub developing_skills: Seq<char>,
    pub recent_achievements: Seq<char>,
    pub how_to_contribute: Seq<char>,
}

impl View for GrowthTemplate {
    type V = GrowthTemplateView;

    open spec fn view(&self) -> GrowthTemplateView {
        GrowthTemplateView {
            id: self.id,
            user_id: self.user_id,
            core_competencies: self.core_competencies@,
            developing_skills: self.developing_skills@,
            recent_achievements: self.recent_achievements@,
            how_to_contribute: self.how_to_contribute@,
        }
    }
}

impl Clone for GrowthTemplate {
    fn clone(&self) -> (copy: Self)
        ensures
            copy == *self,
    {
        GrowthTemplate {
            id: self.id,
            user_id: self.user_id,
            core_competencies: self.core_competencies.clone(),
            developing_skills: self.developing_skills.clone(),
            recent_achievements: self.recent_achievements.clone(),
            how_to_contribute: self.how_to_contribute.clone(),
        }
    }
}

impl Identified for GrowthTemplate {
    open spec fn ident(&self) -> u128 {
        self.id
    }

    fn key(&self) -> (k: u128) {
        self.id
    }
}

impl GrowthTemplate {
    pub fn id(&self) -> (text: String)
        ensures
            text@ == hyphenated(self.id),
            parsed_uuid(text@) == Some(self.id),
    {
        uuid_to_text(self.id)
    }

    pub fn user_id(&self) -> (text: String)
        ensures
            text@ == hyphenated(self.user_id),
            parsed_uuid(text@) == Some(self.user_id),
    {
        uuid_to_text(self.user_id)
    }

    pub fn core_competencies(&self) -> (text: &str)
        ensures
            text@ == self.core_competencies@,
    {
        self.core_competencies.as_str()
    }

    pub fn developing_skills(&self) -> (text: &str)
        ensures
            text@ == self.developing_skills@,
    {
        self.developing_skills.as_str()
    }

    pub fn recent_achievements(&self) -> (text: &str)
        ensures
            text@ == self.recent_achievements@,
    {
        self.recent_achievements.as_str()
    }

    pub fn how_to_contribute(&self) -> (text: &str)
        ensures
            text@ == self.how_to_contribute@,
    {
        self.how_to_contribute.as_str()
    }
}

} // verus!
