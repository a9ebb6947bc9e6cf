//! The flat record types, one for each collection but the blog posts.
//!
//! Each type names the fields that a document must have, with the name that
//! the field has in the document where it differs from the record's.

use crate::convert::{
    int32, int32_at, int32_field, lemma_first_fault_at, text, text_at, text_field, text_list,
    text_list_at, text_list_field, FieldSpec, Record,
};
use crate::document::{Document, Fields};
use crate::error::ConversionError;
use vstd::prelude::*;

verus! {

/// An introduction card.
#[derive(Clone, Debug, PartialEq, Eq)]
pub struct Introduction {
    pub title: String,
    pub icon: String,
}

/// Mathematical model of [`Introduction`].
pub struct IntroductionModel {
    pub title: Seq<char>,
    pub icon: Seq<char>,
}

impl View for Introduction {
    type V = IntroductionModel;

    open spec fn view(&self) -> IntroductionModel {
        IntroductionModel {
            title: self.title@,
            icon: self.icon@,
        }
    }
}

impl Record for Introduction {
    open spec fn shape() -> Seq<FieldSpec> {
        seq![text("title"@), text("icon"@)]
    }

    open spec fn built(doc: Fields) -> IntroductionModel {
        IntroductionModel {
            title: text_at(doc, "title"@),
            icon: text_at(doc, "icon"@),
        }
    }

    fn convert(doc: &Document) -> (r: Result<Introduction, ConversionError>) {
        let title = match text_field(doc, "title") {
            Ok(v) => v,
            Err(e) => {
                proof {
                    lemma_first_fault_at(doc@, Self::shape(), 0);
                }
                return Err(e);
            },
        };
        let icon = match text_field(doc, "icon") {
            Ok(v) => v,
            Err(e) => {
                proof {
                    lemma_first_fault_at(doc@, Self::shape(), 1);
                }
                return Err(e);
            },
        };
        Ok(Introduction { title, icon })
    }
}

/// The owner's personal story.
#[derive(Clone, Debug, PartialEq, Eq)]
pub struct Personal {
    pub email: String,
    pub job_description: String,
    pub life_story: String,
    pub why_do_this: String,
    pub background_url: String,
}

/// Mathematical model of [`Personal`].
pub struct PersonalModel {
    pub email: Seq<char>,
    pub job_description: Seq<char>,
    pub life_story: Seq<char>,
    pub why_do_this: Seq<char>,
    pub background_url: Seq<char>,
}

impl View for Personal {
    type V = PersonalModel;

    open spec fn view(&self) -> PersonalModel {
        PersonalModel {
            email: self.email@,
            job_description: self.job_description@,
            life_story: self.life_story@,
            why_do_this: self.why_do_this@,
            background_url: self.background_url@,
        }
    }
}

impl Record for Personal {
    open spec fn shape() -> Seq<FieldSpec> {
        seq![text("email"@), text("jobDescription"@), text("lifeStory"@), text("whyDothis"@), text("backgroundUrl"@)]
    }

    open spec fn built(doc: Fields) -> PersonalModel {
        PersonalModel {
            email: text_at(doc, "email"@),
            job_description: text_at(doc, "jobDescription"@),
            life_story: text_at(doc, "lifeStory"@),
            why_do_this: text_at(doc, "whyDothis"@),
            background_url: text_at(doc, "backgroundUrl"@),
        }
    }

    fn convert(doc: &Document) -> (r: Result<Personal, ConversionError>) {
        let email = match text_field(doc, "email") {
            Ok(v) => v,
            Err(e) => {
                proof {
                    lemma_first_fault_at(doc@, Self::shape(), 0);
                }
                return Err(e);
            },
        };
        let job_description = match text_field(doc, "jobDescription") {
            Ok(v) => v,
            Err(e) => {
                proof {
                    lemma_first_fault_at(doc@, Self::shape(), 1);
                }
                return Err(e);
            },
        };
        let life_story = match text_field(doc, "lifeStory") {
            Ok(v) => v,
            Err(e) => {
                proof {
                    lemma_first_fault_at(doc@, Self::shape(), 2);
                }
                return Err(e);
            },
        };
        let why_do_this = match text_field(doc, "whyDothis") {
            Ok(v) => v,
            Err(e) => {
                proof {
                    lemma_first_fault_at(doc@, Self::shape(), 3);
                }
                return Err(e);
            },
        };
        let background_url = match text_field(doc, "backgroundUrl") {
            Ok(v) => v,
            Err(e) => {
                proof {
                    lemma_first_fault_at(doc@, Self::shape(), 4);
                }
                return Err(e);
            },
        };
        Ok(Personal { email, job_description, life_story, why_do_this, background_url })
    }
}

/// A project of the owner.
#[derive(Clone, Debug, PartialEq, Eq)]
pub struct Project {
    pub email: String,
    pub title: String,
    pub description: String,
    pub url: String,
    pub background_image: String,
}

/// Mathematical model of [`Project`].
pub struct ProjectModel {
    pub email: Seq<char>,
    pub title: Seq<char>,
    pub description: Seq<char>,
    pub url: Seq<char>,
    pub background_image: Seq<char>,
}

impl View for Project {
    type V = ProjectModel;

    open spec fn view(&self) -> ProjectModel {
        ProjectModel {
            email: self.email@,
            title: self.title@,
            description: self.description@,
            url: self.url@,
            background_image: self.background_image@,
        }
    }
}

impl Record for Project {
    open spec fn shape() -> Seq<FieldSpec> {
        seq![text("email"@), text("title"@), text("description"@), text("url"@), text("backgroundImage"@)]
    }

    open spec fn built(doc: Fields) -> ProjectModel {
        ProjectModel {
            email: text_at(doc, "email"@),
            title: text_at(doc, "title"@),
            description: text_at(doc, "description"@),
            url: text_at(doc, "url"@),
            background_image: text_at(doc, "backgroundImage"@),
        }
    }

    fn convert(doc: &Document) -> (r: Result<Project, ConversionError>) {
        let email = match text_field(doc, "email") {
            Ok(v) => v,
            Err(e) => {
                proof {
                    lemma_first_fault_at(doc@, Self::shape(), 0);
                }
                return Err(e);
            },
        };
        let title = match text_field(doc, "title") {
            Ok(v) => v,
            Err(e) => {
                proof {
                    lemma_first_fault_at(doc@, Self::shape(), 1);
                }
                return Err(e);
            },
        };
        let description = match text_field(doc, "description") {
            Ok(v) => v,
            Err(e) => {
                proof {
                    lemma_first_fault_at(doc@, Self::shape(), 2);
                }
                return Err(e);
            },
        };
        let url = match text_field(doc, "url") {
            Ok(v) => v,
            Err(e) => {
                proof {
                    lemma_first_fault_at(doc@, Self::shape(), 3);
                }
                return Err(e);
            },
        };
        let background_image = match text_field(doc, "backgroundImage") {
            Ok(v) => v,
            Err(e) => {
                proof {
                    lemma_first_fault_at(doc@, Self::shape(), 4);
                }
                return Err(e);
            },
        };
        Ok(Project { email, title, description, url, background_image })
    }
}

/// One entry of the overview of skills.
#[derive(Clone, Debug, PartialEq, Eq)]
pub struct SkillsOverview {
    pub email: String,
    pub title: String,
    pub icon: String,
}

/// Mathematical model of [`SkillsOverview`].
pub struct SkillsOverviewModel {
    pub email: Seq<char>,
    pub title: Seq<char>,
    pub icon: Seq<char>,
}

impl View for SkillsOverview {
    type V = SkillsOverviewModel;

    open spec fn view(&self) -> SkillsOverviewModel {
        SkillsOverviewModel {
            email: self.email@,
            title: self.title@,
            icon: self.icon@,
        }
    }
}

impl Record for SkillsOverview {
    open spec fn shape() -> Seq<FieldSpec> {
        seq![text("email"@), text("title"@), text("icon"@)]
    }

    open spec fn built(doc: Fields) -> SkillsOverviewModel {
        SkillsOverviewModel {
            email: text_at(doc, "email"@),
            title: text_at(doc, "title"@),
            icon: text_at(doc, "icon"@),
        }
    }

    fn convert(doc: &Document) -> (r: Result<SkillsOverview, ConversionError>) {
        let email = match text_field(doc, "email") {
            Ok(v) => v,
            Err(e) => {
                proof {
                    lemma_first_fault_at(doc@, Self::shape(), 0);
                }
                return Err(e);
            },
        };
        let title = match text_field(doc, "title") {
            Ok(v) => v,
            Err(e) => {
                proof {
                    lemma_first_fault_at(doc@, Self::shape(), 1);
                }
                return Err(e);
            },
        };
        let icon = match text_field(doc, "icon") {
            Ok(v) => v,
            Err(e) => {
                proof {
                    lemma_first_fault_at(doc@, Self::shape(), 2);
                }
                return Err(e);
            },
        };
        Ok(SkillsOverview { email, title, icon })
    }
}

/// A skill and how well it is mastered.
#[derive(Clone, Debug, PartialEq, Eq)]
pub struct Skills {
    pub name: String,
    pub mastery: i32,
    pub skill_type: String,
}

/// Mathematical model of [`Skills`].
pub struct SkillsModel {
    pub name: Seq<char>,
    pub mastery: int,
    pub skill_type: Seq<char>,
}

impl View for Skills {
    type V = SkillsModel;

    open spec fn view(&self) -> SkillsModel {
        SkillsModel {
            name: self.name@,
            mastery: self.mastery as int,
            skill_type: self.skill_type@,
        }
    }
}

impl Record for Skills {
    open spec fn shape() -> Seq<FieldSpec> {
        seq![text("name"@), int32("mastery"@), text("skillType"@)]
    }

    open spec fn built(doc: Fields) -> SkillsModel {
        SkillsModel {
            name: text_at(doc, "name"@),
            mastery: int32_at(doc, "mastery"@),
            skill_type: text_at(doc, "skillType"@),
        }
    }

    fn convert(doc: &Document) -> (r: Result<Skills, ConversionError>) {
        let name = match text_field(doc, "name") {
            Ok(v) => v,
            Err(e) => {
                proof {
                    lemma_first_fault_at(doc@, Self::shape(), 0);
                }
                return Err(e);
            },
        };
        let mastery = match int32_field(doc, "mastery") {
            Ok(v) => v,
            Err(e) => {
                proof {
                    lemma_first_fault_at(doc@, Self::shape(), 1);
                }
                return Err(e);
            },
        };
        let skill_type = match text_field(doc, "skillType") {
            Ok(v) => v,
            Err(e) => {
                proof {
                    lemma_first_fault_at(doc@, Self::shape(), 2);
                }
                return Err(e);
            },
        };
        Ok(Skills { name, mastery, skill_type })
    }
}

/// A link to a social media profile.
#[derive(Clone, Debug, PartialEq, Eq)]
pub struct SocialMedia {
    pub url: String,
    pub social_media_type: String,
}

/// Mathematical model of [`SocialMedia`].
pub struct SocialMediaModel {
    pub url: Seq<char>,
    pub social_media_type: Seq<char>,
}

impl View for SocialMedia {
    type V = SocialMediaModel;

    open spec fn view(&self) -> SocialMediaModel {
        SocialMediaModel {
            url: self.url@,
            social_media_type: self.social_media_type@,
        }
    }
}

impl Record for SocialMedia {
    open spec fn shape() -> Seq<FieldSpec> {
        seq![text("url"@), text("socialMediaType"@)]
    }

    open spec fn built(doc: Fields) -> SocialMediaModel {
        SocialMediaModel {
            url: text_at(doc, "url"@),
            social_media_type: text_at(doc, "socialMediaType"@),
        }
    }

    fn convert(doc: &Document) -> (r: Result<SocialMedia, ConversionError>) {
        let url = match text_field(doc, "url") {
            Ok(v) => v,
            Err(e) => {
                proof {
                    lemma_first_fault_at(doc@, Self::shape(), 0);
                }
                return Err(e);
            },
        };
        let social_media_type = match text_field(doc, "socialMediaType") {
            Ok(v) => v,
            Err(e) => {
                proof {
                    lemma_first_fault_at(doc@, Self::shape(), 1);
                }
                return Err(e);
            },
        };
        Ok(SocialMedia { url, social_media_type })
    }
}

/// A soft skill.
#[derive(Clone, Debug, PartialEq, Eq)]
pub struct SoftSkills {
    pub name: String,
    pub description: String,
    pub icon: String,
}

/// Mathematical model of [`SoftSkills`].
pub struct SoftSkillsModel {
    pub name: Seq<char>,
    pub description: Seq<char>,
    pub icon: Seq<char>,
}

impl View for SoftSkills {
    type V = SoftSkillsModel;

    open spec fn view(&self) -> SoftSkillsModel {
        SoftSkillsModel {
            name: self.name@,
            description: self.description@,
            icon: self.icon@,
        }
    }
}

impl Record for SoftSkills {
    open spec fn shape() -> Seq<FieldSpec> {
        seq![text("name"@), text("description"@), text("icon"@)]
    }

    open spec fn built(doc: Fields) -> SoftSkillsModel {
        SoftSkillsModel {
            name: text_at(doc, "name"@),
            description: text_at(doc, "description"@),
            icon: text_at(doc, "icon"@),
        }
    }

    fn convert(doc: &Document) -> (r: Result<SoftSkills, ConversionError>) {
        let name = match text_field(doc, "name") {
            Ok(v) => v,
            Err(e) => {
                proof {
                    lemma_first_fault_at(doc@, Self::shape(), 0);
                }
                return Err(e);
            },
        };
        let description = match text_field(doc, "description") {
            Ok(v) => v,
            Err(e) => {
                proof {
                    lemma_first_fault_at(doc@, Self::shape(), 1);
                }
                return Err(e);
            },
        };
        let icon = match text_field(doc, "icon") {
            Ok(v) => v,
            Err(e) => {
                proof {
                    lemma_first_fault_at(doc@, Self::shape(), 2);
                }
                return Err(e);
            },
        };
        Ok(SoftSkills { name, description, icon })
    }
}

/// The owner's contact data.
#[derive(Clone, Debug, PartialEq, Eq)]
pub struct User {
    pub email: String,
    pub full_name: String,
    pub contact_number: String,
    pub website: String,
}

/// Mathematical model of [`User`].
pub struct UserModel {
    pub email: Seq<char>,
    pub full_name: Seq<char>,
    pub contact_number: Seq<char>,
    pub website: Seq<char>,
}

impl View for User {
    type V = UserModel;

    open spec fn view(&self) -> UserModel {
        UserModel {
            email: self.email@,
            full_name: self.full_name@,
            contact_number: self.contact_number@,
            website: self.website@,
        }
    }
}

impl Record for User {
    open spec fn shape() -> Seq<FieldSpec> {
        seq![text("email"@), text("fullName"@), text("contactNumber"@), text("website"@)]
    }

    open spec fn built(doc: Fields) -> UserModel {
        UserModel {
            email: text_at(doc, "email"@),
            full_name: text_at(doc, "fullName"@),
            contact_number: text_at(doc, "contactNumber"@),
            website: text_at(doc, "website"@),
        }
    }

    fn convert(doc: &Document) -> (r: Result<User, ConversionError>) {
        let email = match text_field(doc, "email") {
            Ok(v) => v,
            Err(e) => {
                proof {
                    lemma_first_fault_at(doc@, Self::shape(), 0);
                }
                return Err(e);
            },
        };
        let full_name = match text_field(doc, "fullName") {
            Ok(v) => v,
            Err(e) => {
                proof {
                    lemma_first_fault_at(doc@, Self::shape(), 1);
                }
                return Err(e);
            },
        };
        let contact_number = match text_field(doc, "contactNumber") {
            Ok(v) => v,
            Err(e) => {
                proof {
                    lemma_first_fault_at(doc@, Self::shape(), 2);
                }
                return Err(e);
            },
        };
        let website = match text_field(doc, "website") {
            Ok(v) => v,
            Err(e) => {
                proof {
                    lemma_first_fault_at(doc@, Self::shape(), 3);
                }
                return Err(e);
            },
        };
        Ok(User { email, full_name, contact_number, website })
    }
}

/// One section of the manifesto.
#[derive(Clone, Debug, PartialEq, Eq)]
pub struct Manifesto {
    pub section_name: String,
    pub content: Vec<String>,
    pub order: i32,
}

/// Mathematical model of [`Manifesto`].
pub struct ManifestoModel {
    pub section_name: Seq<char>,
    pub content: Seq<Seq<char>>,
    pub order: int,
}

impl View for Manifesto {
    type V = ManifestoModel;

    open spec fn view(&self) -> ManifestoModel {
        ManifestoModel {
            section_name: self.section_name@,
            content: self.content.deep_view(),
            order: self.order as int,
        }
    }
}

impl Record for Manifesto {
    open spec fn shape() -> Seq<FieldSpec> {
        seq![text("sectionName"@), text_list("content"@), int32("order"@)]
    }

    open spec fn built(doc: Fields) -> ManifestoModel {
        ManifestoModel {
            section_name: text_at(doc, "sectionName"@),
            content: text_list_at(doc, "content"@),
            order: int32_at(doc, "order"@),
        }
    }

    fn convert(doc: &Document) -> (r: Result<Manifesto, ConversionError>) {
        let section_name = match text_field(doc, "sectionName") {
            Ok(v) => v,
            Err(e) => {
                proof {
                    lemma_first_fault_at(doc@, Self::shape(), 0);
                }
                return Err(e);
            },
        };
        let content = match text_list_field(doc, "content") {
            Ok(v) => v,
            Err(e) => {
                proof {
                    lemma_first_fault_at(doc@, Self::shape(), 1);
                }
                return Err(e);
            },
        };
        let order = match int32_field(doc, "order") {
            Ok(v) => v,
            Err(e) => {
                proof {
                    lemma_first_fault_at(doc@, Self::shape(), 2);
                }
                return Err(e);
            },
        };
        Ok(Manifesto { section_name, content, order })
    }
}

/// What the owner works on now.
#[derive(Clone, Debug, PartialEq, Eq)]
pub struct CurrentWork {
    pub title: String,
    pub company: String,
    pub company_website: String,
    pub description: Vec<String>,
    pub tags: Vec<String>,
}

/// Mathematical model of [`CurrentWork`].
pub struct CurrentWorkModel {
    pub title: Seq<char>,
    pub company: Seq<char>,
    pub company_website: Seq<char>,
    pub description: Seq<Seq<char>>,
    pub tags: Seq<Seq<char>>,
}

impl View for CurrentWork {
    type V = CurrentWorkModel;

    open spec fn view(&self) -> CurrentWorkModel {
        CurrentWorkModel {
            title: self.title@,
            company: self.company@,
            company_website: self.company_website@,
            description: self.description.deep_view(),
            tags: self.tags.deep_view(),
        }
    }
}

impl Record for CurrentWork {
    open spec fn shape() -> Seq<FieldSpec> {
        seq![text("title"@), text("company"@), text("companyWebsite"@), text_list("description"@), text_list("tags"@)]
    }

    open spec fn built(doc: Fields) -> CurrentWorkModel {
        CurrentWorkModel {
            title: text_at(doc, "title"@),
            company: text_at(doc, "company"@),
            company_website: text_at(doc, "companyWebsite"@),
            description: text_list_at(doc, "description"@),
            tags: text_list_at(doc, "tags"@),
        }
    }

    fn convert(doc: &Document) -> (r: Result<CurrentWork, ConversionError>) {
        let title = match text_field(doc, "title") {
            Ok(v) => v,
            Err(e) => {
                proof {
                    lemma_first_fault_at(doc@, Self::shape(), 0);
                }
                return Err(e);
            },
        };
        let company = match text_field(doc, "company") {
            Ok(v) => v,
            Err(e) => {
                proof {
                    lemma_first_fault_at(doc@, Self::shape(), 1);
                }
                return Err(e);
            },
        };
        let company_website = match text_field(doc, "companyWebsite") {
            Ok(v) => v,
            Err(e) => {
                proof {
                    lemma_first_fault_at(doc@, Self::shape(), 2);
                }
                return Err(e);
            },
        };
        let description = match text_list_field(doc, "description") {
            Ok(v) => v,
            Err(e) => {
                proof {
                    lemma_first_fault_at(doc@, Self::shape(), 3);
                }
                return Err(e);
            },
        };
        let tags = match text_list_field(doc, "tags") {
            Ok(v) => v,
            Err(e) => {
                proof {
                    lemma_first_fault_at(doc@, Self::shape(), 4);
                }
                return Err(e);
            },
        };
        Ok(CurrentWork { title, company, company_website, description, tags })
    }
}

} // verus!
