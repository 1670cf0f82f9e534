//! Server-side logic of the SLS community site: sessions and tokens, the
//! forum (posts, comments, likes), the member directory, picture folders and
//! the shared-file tree.
pub mod config;
pub mod number;
pub mod reply;
pub mod session;
pub mod text;
pub mod token;

pub mod get_comment_with_id;
pub mod get_favorite_posts_with_student_id;
pub mod get_fsmap;
pub mod get_posts;
pub mod get_sls_members;
pub mod get_text;
pub mod read_image_files_in_folder;
pub mod submit_admin_login_info;
pub mod submit_an_action;
pub mod submit_change_password_info;
pub mod submit_comment_removing;
pub mod submit_images;
pub mod submit_login_info;
pub mod submit_new_comment;
pub mod submit_new_post;
pub mod submit_new_sls_member;
pub mod submit_signup_info;
pub mod submit_sls_member_moving;
pub mod submit_sls_member_profile_update;
