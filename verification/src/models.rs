//! Request and response shapes carried at the gateway's edges. These are
//! plain data; the registries they once fed hold no behaviour in this core.
use vstd::prelude::*;

verus! {

#[derive(Clone, Copy, Debug, PartialEq, Eq, Structural)]
pub enum UserRole {
    Superuser,
    Admin,
    Manager,
    GroupLeader,
    Developer,
}

#[derive(Debug)]
pub struct CreateUser {
    pub email: String,
    pub name: String,
    pub avatar_url: Option<String>,
    pub organization_id: String,
    pub role: UserRole,
    pub is_active: bool,
}

#[derive(Debug)]
pub struct UpdateUser {
    pub email: Option<String>,
    pub name: Option<String>,
    pub avatar_url: Option<String>,
    pub organization_id: Option<String>,
    pub role: Option<UserRole>,
    pub is_active: Option<bool>,
}

#[derive(Debug)]
pub struct CreateOrganization {
    pub name: String,
    pub description: Option<String>,
    pub slug: Option<String>,
    pub logo_url: Option<String>,
    pub domain: Option<String>,
    pub plan: Option<String>,
    pub is_active: bool,
}

#[derive(Debug)]
pub struct UpdateOrganization {
    pub name: Option<String>,
    pub description: Option<String>,
    pub slug: Option<String>,
    pub logo_url: Option<String>,
    pub domain: Option<String>,
    pub plan: Option<String>,
    pub is_active: Option<bool>,
}

#[derive(Debug)]
pub struct CreateApiKey {
    pub name: String,
    pub organization_id: String,
    pub is_active: bool,
}

#[derive(Debug)]
pub struct UpdateApiKey {
    pub name: Option<String>,
    pub is_active: Option<bool>,
}

#[derive(Debug)]
pub struct Token {
    pub token: String,
}

#[derive(Debug)]
pub struct TokenRedeemResponse {
    pub amount: Option<String>,
    pub success: bool,
    pub message: Option<String>,
}

#[derive(Debug)]
pub struct LoginRequest {
    pub username: Option<String>,
    pub password: Option<String>,
}

#[derive(Debug)]
pub struct LoginResponse {
    pub id: String,
}

#[derive(Debug)]
pub struct RegisterRequest {
    pub npub: String,
    pub name: Option<String>,
}

#[derive(Debug)]
pub struct RegisterResponse {
    pub user_id: String,
    pub theme: String,
}

#[derive(Clone, Copy, Debug, PartialEq, Eq, Structural)]
pub enum TransactionType {
    Deposit,
    Withdrawal,
    Transfer,
}

#[derive(Clone, Copy, Debug, PartialEq, Eq, Structural)]
pub enum TransactionStatus {
    Pending,
    Completed,
    Failed,
}

pub struct WalletService;

/// Query parameters of the paginated admin listings.
#[derive(Clone, Copy, Debug)]
pub struct PaginationParams {
    pub page: Option<i64>,
    pub page_size: Option<i64>,
}

#[derive(Debug)]
pub struct ContentPart {
    pub content_type: String,
    pub text: Option<String>,
    pub image_url: Option<ImageUrl>,
}

#[derive(Debug)]
pub struct ImageUrl {
    pub url: String,
    pub detail: Option<String>,
}

#[derive(Debug)]
pub struct OpenAIModelObject {
    pub id: String,
    pub object: String,
    pub created: i64,
    pub owned_by: String,
    pub supported_methods: Option<Vec<String>>,
    pub groups: Option<Vec<String>>,
    pub features: Option<Vec<String>>,
    pub max_tokens: Option<i32>,
}

#[derive(Debug)]
pub struct OpenAIModelList {
    pub object: String,
    pub data: Vec<OpenAIModelObject>,
}

#[derive(Debug)]
pub enum ToolChoice {
    Auto(String),
    Function { type_field: String, function: FunctionName },
    NoneChoice(String),
}

#[derive(Debug)]
pub struct FunctionName {
    pub name: String,
}

#[derive(Debug)]
pub struct ToolCall {
    pub id: String,
    pub call_type: String,
    pub function: FunctionCall,
}

#[derive(Debug)]
pub struct FunctionCall {
    pub name: String,
    pub arguments: String,
}

} // verus!
