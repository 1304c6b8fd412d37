//! Plain data types of the surrounding point-of-sale application.
//!
//! The modules that work with these — catalog, tables and reservations,
//! carts, stock, SMS messaging, printing, AI analysis, business settings —
//! are event *sources* for the audit core: they record financial and
//! operational events through the ledger's ingestion interface, but their
//! own storage and external calls live outside this crate. Their request
//! and response shapes are kept here as shared vocabulary; they carry no
//! invariants of their own.

use vstd::prelude::*;

verus! {

#[derive(Debug)]
pub struct BusinessInfo {
    pub id: Option<i32>,
    pub business_name: String,
    pub business_address: String,
    pub business_phone: String,
    pub business_email: String,
    pub business_website: Option<String>,
    pub business_logo: Option<String>,
    pub business_description: Option<String>,
    pub created_at: Option<String>,
    pub updated_at: Option<String>,
}

#[derive(Debug)]
pub struct TaxSettings {
    pub id: Option<i32>,
    pub selected_country: String,
    pub auto_calculate: bool,
    pub show_tax_details: bool,
    pub round_tax: bool,
    pub tax_inclusive: bool,
    pub created_at: Option<String>,
    pub updated_at: Option<String>,
}

#[derive(Debug)]
pub struct UserPreferences {
    pub id: Option<i32>,
    pub theme: String,
    pub language: String,
    pub currency: String,
    pub date_format: String,
    pub time_format: String,
    pub created_at: Option<String>,
    pub updated_at: Option<String>,
}

#[derive(Debug)]
pub struct SystemConfig {
    pub id: Option<i32>,
    pub app_version: String,
    pub last_backup: Option<String>,
    pub auto_backup: bool,
    pub backup_frequency: String,
    pub created_at: Option<String>,
    pub updated_at: Option<String>,
}

#[derive(Debug, Clone, Copy, PartialEq, Eq, Structural)]
pub enum TableStatus {
    Free,
    Occupied,
    Reserved,
    Cleaning,
}

#[derive(Debug, Clone, Copy, PartialEq, Eq, Structural)]
pub enum ReservationStatus {
    Confirmed,
    Cancelled,
    Completed,
    NoShow,
    Arrived,
}

#[derive(Debug)]
pub struct CreateReservationRequest {
    pub table_id: String,
    pub customer_name: String,
    pub customer_phone: Option<String>,
    pub customer_email: Option<String>,
    pub reservation_date: String,
    pub reservation_time: String,
    pub duration_minutes: Option<i32>,
    pub party_size: i32,
    pub special_requests: Option<String>,
}

#[derive(Debug)]
pub struct CreateCategoryRequest {
    pub name: String,
    pub description: Option<String>,
    pub color: Option<String>,
    pub tax_rate_id: Option<String>,
}

#[derive(Debug)]
pub struct UpdateCategoryRequest {
    pub name: Option<String>,
    pub description: Option<String>,
    pub color: Option<String>,
    pub tax_rate_id: Option<String>,
    pub is_active: Option<bool>,
}

#[derive(Debug)]
pub struct CreateTableRequest {
    pub number: i32,
    pub name: String,
    pub capacity: i32,
}

#[derive(Debug)]
pub struct UpdateTableRequest {
    pub number: Option<i32>,
    pub name: Option<String>,
    pub capacity: Option<i32>,
    pub status: Option<TableStatus>,
    pub position_x: Option<i32>,
    pub position_y: Option<i32>,
}

#[derive(Debug)]
pub struct UpdateCartItemRequest {
    pub quantity: i32,
}

#[derive(Debug)]
pub struct GetTableCartRequest {
    pub table_id: String,
}

#[derive(Debug)]
pub struct UpdateCartItemCommandRequest {
    pub table_id: String,
    pub product_id: String,
    pub update_request: UpdateCartItemRequest,
}

#[derive(Debug)]
pub struct RemoveItemFromCartRequest {
    pub table_id: String,
    pub product_id: String,
}

#[derive(Debug)]
pub struct ClearTableCartRequest {
    pub table_id: String,
}

#[derive(Debug, Clone, Copy, PartialEq, Eq, Structural)]
pub enum ObjectType {
    Table,
    Chair,
    Bar,
    Kitchen,
    Bathroom,
    Entrance,
    Wall,
    Decoration,
    Test,
}

#[derive(Debug)]
pub struct MenuItem {
    pub name: String,
    pub price: String,
    pub category: Option<String>,
}

#[derive(Debug)]
pub struct MenuAnalysisRequest {
    pub image_data: String,
    pub mime_type: String,
}

#[derive(Debug)]
pub struct MenuAnalysisResponse {
    pub success: bool,
    pub items: Vec<MenuItem>,
    pub error: Option<String>,
}

#[derive(Debug)]
pub struct ImportMenuRequest {
    pub items: Vec<MenuItem>,
}

#[derive(Debug)]
pub struct TerminalCommand {
    pub command: String,
    pub os: String,
}

#[derive(Debug)]
pub struct TerminalOutput {
    pub success: bool,
    pub stdout: String,
    pub stderr: String,
    pub exit_code: i32,
}

#[derive(Debug)]
pub struct PrinterInfo {
    pub name: String,
    pub port: String,
    pub is_default: bool,
    pub status: String,
}

#[derive(Debug)]
pub struct PrintTestRequest {
    pub printer_name: String,
    pub paper_size: String,
    pub content: String,
}

#[derive(Debug)]
pub struct PrinterCapabilities {
    pub supports_escpos: bool,
    pub supports_raw: bool,
    pub max_width: i32,
    pub supports_graphics: bool,
}

#[derive(Debug, Clone, Copy, PartialEq, Eq, Structural)]
pub enum InvoiceStatus {
    Pending,
    Processed,
    Error,
}

#[derive(Debug, Clone, Copy, PartialEq, Eq, Structural)]
pub enum StockMovementType {
    In,
    Out,
    Adjustment,
    Expired,
}

#[derive(Debug, Clone, Copy, PartialEq, Eq, Structural)]
pub enum StockAlertType {
    LowStock,
    OutOfStock,
    ExpiringSoon,
    Expired,
}

#[derive(Debug, Clone, Copy, PartialEq, Eq, Structural)]
pub enum StockLevel {
    OutOfStock,
    LowStock,
    NormalStock,
    HighStock,
}

#[derive(Debug)]
pub struct CreateSupplierRequest {
    pub name: String,
    pub contact_person: Option<String>,
    pub email: Option<String>,
    pub phone: Option<String>,
    pub address: Option<String>,
    pub payment_terms: Option<String>,
}

#[derive(Debug)]
pub struct UpdateSupplierRequest {
    pub name: Option<String>,
    pub contact_person: Option<String>,
    pub email: Option<String>,
    pub phone: Option<String>,
    pub address: Option<String>,
    pub payment_terms: Option<String>,
    pub is_active: Option<bool>,
}

#[derive(Debug)]
pub struct InvoiceAnalysisRequest {
    pub image_data: String,
    pub mime_type: String,
}

#[derive(Debug, Clone, Copy, PartialEq, Eq, Structural)]
pub enum SMSStatus {
    Pending,
    Sent,
    Delivered,
    Failed,
}

#[derive(Debug, Clone, Copy, PartialEq, Eq, Structural)]
pub enum SMSProvider {
    NoProvider,
    SmsGatewayAndroid,
    Infobip,
    Sim800900,
    Twilio,
    MessageBird,
    SIM800C,
    SIM900A,
    Custom,
}

#[derive(Debug)]
pub struct CreateSMSMessageRequest {
    pub phone_number: String,
    pub message: String,
    pub template_id: Option<String>,
    pub ticket_id: Option<String>,
    pub order_id: Option<String>,
    pub table_id: Option<String>,
    pub customer_name: Option<String>,
}

#[derive(Debug)]
pub struct CreateSMSTemplateRequest {
    pub name: String,
    pub content: String,
    pub variables: Option<Vec<String>>,
    pub category: String,
}

#[derive(Debug)]
pub struct UpdateSMSTemplateRequest {
    pub name: Option<String>,
    pub content: Option<String>,
    pub variables: Option<Vec<String>>,
    pub category: Option<String>,
    pub is_active: Option<bool>,
}

#[derive(Debug)]
pub struct CreateSMSContactRequest {
    pub name: String,
    pub phone_number: String,
    pub email: Option<String>,
    pub company: Option<String>,
    pub tags: Option<Vec<String>>,
}

#[derive(Debug)]
pub struct UpdateSMSContactRequest {
    pub name: Option<String>,
    pub phone_number: Option<String>,
    pub email: Option<String>,
    pub company: Option<String>,
    pub tags: Option<Vec<String>>,
    pub is_active: Option<bool>,
}

#[derive(Debug)]
pub struct UpdateSMSConfigRequest {
    pub provider: Option<SMSProvider>,
    pub api_key: Option<String>,
    pub api_secret: Option<String>,
    pub sender_name: Option<String>,
    pub webhook_url: Option<String>,
    pub sim_port: Option<String>,
    pub sim_baud_rate: Option<i32>,
    pub is_enabled: Option<bool>,
}

#[derive(Debug)]
pub struct SMSGatewayConfig {
    pub android_ip: String,
    pub port: u16,
    pub username: String,
    pub password: String,
}

#[derive(Debug)]
pub struct TestSMSGatewayAndroidRequest {
    pub device_ip: String,
    pub port: u16,
    pub username: String,
    pub password: String,
    pub test_phone: String,
    pub test_message: String,
}

#[derive(Debug)]
pub struct TestInfobipRequest {
    pub api_key: String,
    pub base_url: String,
    pub sender_name: String,
    pub test_phone: String,
    pub test_message: String,
}

#[derive(Debug)]
pub struct AIConfigRequest {
    pub provider: String,
    pub api_key: String,
    pub api_url: Option<String>,
    pub model: Option<String>,
    pub is_active: Option<bool>,
}

#[derive(Debug)]
pub struct AITestRequest {
    pub provider: String,
    pub api_key: String,
    pub api_url: Option<String>,
    pub model: Option<String>,
}

#[derive(Debug)]
pub struct AITestResponse {
    pub success: bool,
    pub message: String,
    pub error: Option<String>,
}

} // verus!
