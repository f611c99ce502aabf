//! Comments on posts.

use vstd::prelude::*;
use vstd::string::*;
use crate::config::{config_get_string, string_setting};
use crate::text::{lowercase, same_text, trim, trimmed};

verus! {

/// A comment as the store serves it.
#[derive(Debug, PartialEq)]
pub struct Comment {
    pub id: u32,
    pub parent_id: u32,
    pub post_id: u32,
    pub status: String,
    pub author_name: String,
    pub author_email: String,
    pub date_posted: u64,
    pub content: String,
}

/// A comment as the admin list shows it.
#[derive(Debug, PartialEq)]
pub struct CommentExcerpt {
    pub id: u32,
    pub post_title: String,
    pub status: String,
    pub author_name: String,
    pub author_email: String,
    pub date_posted: u64,
    pub content: String,
}

/// A comment that passed the checks and waits to be stored and approved.
#[derive(Debug, PartialEq)]
pub struct NewComment {
    pub post_id: u32,
    pub parent_id: u32,
    pub status: String,
    pub author_name: String,
    pub author_email: String,
    pub content: String,
}

/// What a `NewComment` holds.
pub struct NewCommentView {
    pub post_id: u32,
    pub parent_id: u32,
    pub status: Seq<char>,
    pub author_name: Seq<char>,
    pub author_email: Seq<char>,
    pub content: Seq<char>,
}

impl View for NewComment {
    type V = NewCommentView;

    open spec fn view(&self) -> NewCommentView {
        NewCommentView {
            post_id: self.post_id,
            parent_id: self.parent_id,
            status: self.status@,
            author_name: self.author_name@,
            author_email: self.author_email@,
            content: self.content@,
        }
    }
}

/// What is wrong with a comment handed in, if anything, in the words shown
/// to its author. The checks come in this order: the answer to the spam
/// question, which must be the setting `bot_block_solution` but for case and
/// surrounding blanks; the author's name, the post, and the text, none of
/// which may be missing.
pub open spec fn comment_fault(
    c: config::Config,
    post_id: u32,
    author: Seq<char>,
    text: Seq<char>,
    bot_stop: Seq<char>,
) -> Option<Seq<char>> {
    if string_setting(c, "bot_block_solution"@) != trimmed(lowercase(bot_stop)) {
        Some("Please check your answer to the spam protection question."@)
    } else if trimmed(author).len() == 0 {
        Some("Kindly provide your name."@)
    } else if post_id == 0 {
        Some("The post could not be found."@)
    } else if trimmed(text).len() == 0 {
        Some("The comment can not be empty."@)
    } else {
        None
    }
}

impl Comment {
    /// Checks a comment handed in for the post `post_id`. One that passes is
    /// returned as it is to be stored: new, with name and text stripped of
    /// surrounding blanks. One that fails is answered with what is wrong.
    pub fn store_unapproved_comment(
        c: &config::Config,
        post_id: u32,
        parent_id: u32,
        author: &str,
        email: &str,
        text: &str,
        bot_stop: &str,
    ) -> (r: Result<NewComment, String>)
        ensures
            match comment_fault(*c, post_id, author@, text@, bot_stop@) {
                Some(fault) => r matches Err(e) && e@ == fault,
                None => r matches Ok(n) && n@ == (NewCommentView {
                    post_id,
                    parent_id,
                    status: "new"@,
                    author_name: trimmed(author@),
                    author_email: email@,
                    content: trimmed(text@),
                }),
            },
    {
        let bot_block_answer = config_get_string(c, "bot_block_solution");
        let given = trim(bot_stop.to_lowercase().as_str());
        if !same_text(bot_block_answer.as_str(), given.as_str()) {
            return Err(
                String::from_str("Please check your answer to the spam protection question."),
            );
        }
        let author_name = trim(author);
        if author_name.as_str().unicode_len() == 0 {
            return Err(String::from_str("Kindly provide your name."));
        }
        if post_id == 0 {
            return Err(String::from_str("The post could not be found."));
        }
        let content = trim(text);
        if content.as_str().unicode_len() == 0 {
            return Err(String::from_str("The comment can not be empty."));
        }
        Ok(
            NewComment {
                post_id,
                parent_id,
                status: String::from_str("new"),
                author_name,
                author_email: String::from_str(email),
                content,
            },
        )
    }
}

} // verus!
