//! Invoices, orders and payments.

use vstd::prelude::*;
use crate::codec::{
    discriminator, field, members_of, optional_field, put, read_field, read_optional, seal,
    Tagged, Union, Wire,
};
use crate::error::{DecodeError, Fault};
use crate::json::{Doc, Json, Member, tag_of, tagged};
use crate::text::same_text;

verus! {

/// Describes an address
#[derive(Debug, Clone, PartialEq)]
pub struct Address {
    /// A two-letter ISO 3166-1 alpha-2 country code
    pub country_code: String,
    /// State, if applicable
    pub state: String,
    /// City
    pub city: String,
    /// First line of the address
    pub street_line1: String,
    /// Second line of the address
    pub street_line2: String,
    /// Address postal code
    pub postal_code: String,
}

impl Wire for Address {
    #[verifier::opaque]
    open spec fn wire(&self) -> Doc {
        tagged(
            Map::empty()
                .insert("countryCode"@, self.country_code.wire())
                .insert("state"@, self.state.wire())
                .insert("city"@, self.city.wire())
                .insert("streetLine1"@, self.street_line1.wire())
                .insert("streetLine2"@, self.street_line2.wire())
                .insert("postalCode"@, self.postal_code.wire()),
            "address"@,
        )
    }

    #[verifier::opaque]
    open spec fn parse(d: Doc, at: Seq<char>) -> Result<Doc, Fault> {
        match d {
            Doc::Object(m) => {
                let country_code = field::<String>(m, "countryCode"@);
                let state = field::<String>(m, "state"@);
                let city = field::<String>(m, "city"@);
                let street_line1 = field::<String>(m, "streetLine1"@);
                let street_line2 = field::<String>(m, "streetLine2"@);
                let postal_code = field::<String>(m, "postalCode"@);
                if country_code is Err {
                    country_code
                } else if state is Err {
                    state
                } else if city is Err {
                    city
                } else if street_line1 is Err {
                    street_line1
                } else if street_line2 is Err {
                    street_line2
                } else if postal_code is Err {
                    postal_code
                } else {
                    Ok(
                        tagged(
                            Map::empty()
                                .insert("countryCode"@, country_code->Ok_0)
                                .insert("state"@, state->Ok_0)
                                .insert("city"@, city->Ok_0)
                                .insert("streetLine1"@, street_line1->Ok_0)
                                .insert("streetLine2"@, street_line2->Ok_0)
                                .insert("postalCode"@, postal_code->Ok_0),
                            "address"@,
                        ),
                    )
                }
            },
            _ => Err(Fault::TypeMismatch(at)),
        }
    }

    fn encode(&self) -> (j: Json) {
        proof {
            reveal(<Address as Wire>::wire);
        }
        let mut members: Vec<Member> = Vec::new();
        put(&mut members, "countryCode", self.country_code.encode());
        put(&mut members, "state", self.state.encode());
        put(&mut members, "city", self.city.encode());
        put(&mut members, "streetLine1", self.street_line1.encode());
        put(&mut members, "streetLine2", self.street_line2.encode());
        put(&mut members, "postalCode", self.postal_code.encode());
        seal(members, "address")
    }

    fn decode(j: &Json, at: &str) -> (r: Result<Self, DecodeError>) {
        proof {
            reveal(<Address as Wire>::wire);
            reveal(<Address as Wire>::parse);
        }
        let members = members_of(j, at)?;
        let country_code = read_field::<String>(members, "countryCode")?;
        let state = read_field::<String>(members, "state")?;
        let city = read_field::<String>(members, "city")?;
        let street_line1 = read_field::<String>(members, "streetLine1")?;
        let street_line2 = read_field::<String>(members, "streetLine2")?;
        let postal_code = read_field::<String>(members, "postalCode")?;
        Ok(Address { country_code, state, city, street_line1, street_line2, postal_code })
    }

    proof fn round_trip(&self, at: Seq<char>) {
        reveal(<Address as Wire>::wire);
        reveal(<Address as Wire>::parse);
        reveal_strlit("@type");
        reveal_strlit("city");
        reveal_strlit("countryCode");
        reveal_strlit("postalCode");
        reveal_strlit("state");
        reveal_strlit("streetLine1");
        reveal_strlit("streetLine2");
        assert("@type"@.len() == 5 && "@type"@[0] == '@');
        assert("city"@.len() == 4);
        assert("countryCode"@.len() == 11 && "countryCode"@[10] == 'e');
        assert("postalCode"@.len() == 10);
        assert("state"@.len() == 5 && "state"@[0] == 's');
        assert("streetLine1"@.len() == 11 && "streetLine1"@[10] == '1');
        assert("streetLine2"@.len() == 11 && "streetLine2"@[10] == '2');
        self.country_code.round_trip("countryCode"@);
        self.state.round_trip("state"@);
        self.city.round_trip("city"@);
        self.street_line1.round_trip("streetLine1"@);
        self.street_line2.round_trip("streetLine2"@);
        self.postal_code.round_trip("postalCode"@);
    }
}

impl Tagged for Address {
    open spec fn known(tag: Seq<char>) -> bool {
        tag == "address"@
    }

    fn knows(tag: &str) -> (r: bool) {
        same_text(tag, "address")
    }

    proof fn tag_known(&self) {
        reveal(<Address as Wire>::wire);
        assert(tag_of(self.wire()) == Some("address"@));
        assert(Self::known("address"@));
    }
}

/// Portion of the price of a product (e.g., "delivery cost", "tax amount")
#[derive(Debug, Clone, PartialEq)]
pub struct LabeledPricePart {
    /// Label for this portion of the product price
    pub label: String,
    /// Currency amount in minimal quantity of the currency
    pub amount: i64,
}

impl Wire for LabeledPricePart {
    #[verifier::opaque]
    open spec fn wire(&self) -> Doc {
        tagged(
            Map::empty()
                .insert("label"@, self.label.wire())
                .insert("amount"@, self.amount.wire()),
            "labeledPricePart"@,
        )
    }

    #[verifier::opaque]
    open spec fn parse(d: Doc, at: Seq<char>) -> Result<Doc, Fault> {
        match d {
            Doc::Object(m) => {
                let label = field::<String>(m, "label"@);
                let amount = field::<i64>(m, "amount"@);
                if label is Err {
                    label
                } else if amount is Err {
                    amount
                } else {
                    Ok(
                        tagged(
                            Map::empty()
                                .insert("label"@, label->Ok_0)
                                .insert("amount"@, amount->Ok_0),
                            "labeledPricePart"@,
                        ),
                    )
                }
            },
            _ => Err(Fault::TypeMismatch(at)),
        }
    }

    fn encode(&self) -> (j: Json) {
        proof {
            reveal(<LabeledPricePart as Wire>::wire);
        }
        let mut members: Vec<Member> = Vec::new();
        put(&mut members, "label", self.label.encode());
        put(&mut members, "amount", self.amount.encode());
        seal(members, "labeledPricePart")
    }

    fn decode(j: &Json, at: &str) -> (r: Result<Self, DecodeError>) {
        proof {
            reveal(<LabeledPricePart as Wire>::wire);
            reveal(<LabeledPricePart as Wire>::parse);
        }
        let members = members_of(j, at)?;
        let label = read_field::<String>(members, "label")?;
        let amount = read_field::<i64>(members, "amount")?;
        Ok(LabeledPricePart { label, amount })
    }

    proof fn round_trip(&self, at: Seq<char>) {
        reveal(<LabeledPricePart as Wire>::wire);
        reveal(<LabeledPricePart as Wire>::parse);
        reveal_strlit("@type");
        reveal_strlit("amount");
        reveal_strlit("label");
        assert("@type"@.len() == 5 && "@type"@[0] == '@');
        assert("amount"@.len() == 6);
        assert("label"@.len() == 5 && "label"@[0] == 'l');
        self.label.round_trip("label"@);
        self.amount.round_trip("amount"@);
    }
}

impl Tagged for LabeledPricePart {
    open spec fn known(tag: Seq<char>) -> bool {
        tag == "labeledPricePart"@
    }

    fn knows(tag: &str) -> (r: bool) {
        same_text(tag, "labeledPricePart")
    }

    proof fn tag_known(&self) {
        reveal(<LabeledPricePart as Wire>::wire);
        assert(tag_of(self.wire()) == Some("labeledPricePart"@));
        assert(Self::known("labeledPricePart"@));
    }
}

/// Product invoice
#[derive(Debug, Clone, PartialEq)]
pub struct Invoice {
    /// ISO 4217 currency code
    pub currency: String,
    /// A list of objects used to calculate the total price of the product
    pub price_parts: Vec<LabeledPricePart>,
    /// True, if the payment is a test payment
    pub is_test: bool,
    /// True, if the user's name is needed for payment
    pub need_name: bool,
    /// True, if the user's phone number is needed for payment
    pub need_phone_number: bool,
    /// True, if the user's email address is needed for payment
    pub need_email_address: bool,
    /// True, if the user's shipping address is needed for payment
    pub need_shipping_address: bool,
    /// True, if the user's phone number will be sent to the provider
    pub send_phone_number_to_provider: bool,
    /// True, if the user's email address will be sent to the provider
    pub send_email_address_to_provider: bool,
    /// True, if the total price depends on the shipping method
    pub is_flexible: bool,
}

impl Wire for Invoice {
    #[verifier::opaque]
    open spec fn wire(&self) -> Doc {
        tagged(
            Map::empty()
                .insert("currency"@, self.currency.wire())
                .insert("priceParts"@, self.price_parts.wire())
                .insert("isTest"@, self.is_test.wire())
                .insert("needName"@, self.need_name.wire())
                .insert("needPhoneNumber"@, self.need_phone_number.wire())
                .insert("needEmailAddress"@, self.need_email_address.wire())
                .insert("needShippingAddress"@, self.need_shipping_address.wire())
                .insert("sendPhoneNumberToProvider"@, self.send_phone_number_to_provider.wire())
                .insert("sendEmailAddressToProvider"@, self.send_email_address_to_provider.wire())
                .insert("isFlexible"@, self.is_flexible.wire()),
            "invoice"@,
        )
    }

    #[verifier::opaque]
    open spec fn parse(d: Doc, at: Seq<char>) -> Result<Doc, Fault> {
        match d {
            Doc::Object(m) => {
                let currency = field::<String>(m, "currency"@);
                let price_parts = field::<Vec<LabeledPricePart>>(m, "priceParts"@);
                let is_test = field::<bool>(m, "isTest"@);
                let need_name = field::<bool>(m, "needName"@);
                let need_phone_number = field::<bool>(m, "needPhoneNumber"@);
                let need_email_address = field::<bool>(m, "needEmailAddress"@);
                let need_shipping_address = field::<bool>(m, "needShippingAddress"@);
                let send_phone_number_to_provider = field::<bool>(m, "sendPhoneNumberToProvider"@);
                let send_email_address_to_provider = field::<bool>(
                    m,
                    "sendEmailAddressToProvider"@,
                );
                let is_flexible = field::<bool>(m, "isFlexible"@);
                if currency is Err {
                    currency
                } else if price_parts is Err {
                    price_parts
                } else if is_test is Err {
                    is_test
                } else if need_name is Err {
                    need_name
                } else if need_phone_number is Err {
                    need_phone_number
                } else if need_email_address is Err {
                    need_email_address
                } else if need_shipping_address is Err {
                    need_shipping_address
                } else if send_phone_number_to_provider is Err {
                    send_phone_number_to_provider
                } else if send_email_address_to_provider is Err {
                    send_email_address_to_provider
                } else if is_flexible is Err {
                    is_flexible
                } else {
                    Ok(
                        tagged(
                            Map::empty()
                                .insert("currency"@, currency->Ok_0)
                                .insert("priceParts"@, price_parts->Ok_0)
                                .insert("isTest"@, is_test->Ok_0)
                                .insert("needName"@, need_name->Ok_0)
                                .insert("needPhoneNumber"@, need_phone_number->Ok_0)
                                .insert("needEmailAddress"@, need_email_address->Ok_0)
                                .insert("needShippingAddress"@, need_shipping_address->Ok_0)
                                .insert(
                                    "sendPhoneNumberToProvider"@,
                                    send_phone_number_to_provider->Ok_0,
                                )
                                .insert(
                                    "sendEmailAddressToProvider"@,
                                    send_email_address_to_provider->Ok_0,
                                )
                                .insert("isFlexible"@, is_flexible->Ok_0),
                            "invoice"@,
                        ),
                    )
                }
            },
            _ => Err(Fault::TypeMismatch(at)),
        }
    }

    fn encode(&self) -> (j: Json) {
        proof {
            reveal(<Invoice as Wire>::wire);
        }
        let mut members: Vec<Member> = Vec::new();
        put(&mut members, "currency", self.currency.encode());
        put(&mut members, "priceParts", self.price_parts.encode());
        put(&mut members, "isTest", self.is_test.encode());
        put(&mut members, "needName", self.need_name.encode());
        put(&mut members, "needPhoneNumber", self.need_phone_number.encode());
        put(&mut members, "needEmailAddress", self.need_email_address.encode());
        put(&mut members, "needShippingAddress", self.need_shipping_address.encode());
        put(&mut members, "sendPhoneNumberToProvider", self.send_phone_number_to_provider.encode());
        put(
            &mut members,
            "sendEmailAddressToProvider",
            self.send_email_address_to_provider.encode(),
        );
        put(&mut members, "isFlexible", self.is_flexible.encode());
        seal(members, "invoice")
    }

    fn decode(j: &Json, at: &str) -> (r: Result<Self, DecodeError>) {
        proof {
            reveal(<Invoice as Wire>::wire);
            reveal(<Invoice as Wire>::parse);
        }
        let members = members_of(j, at)?;
        let currency = read_field::<String>(members, "currency")?;
        let price_parts = read_field::<Vec<LabeledPricePart>>(members, "priceParts")?;
        let is_test = read_field::<bool>(members, "isTest")?;
        let need_name = read_field::<bool>(members, "needName")?;
        let need_phone_number = read_field::<bool>(members, "needPhoneNumber")?;
        let need_email_address = read_field::<bool>(members, "needEmailAddress")?;
        let need_shipping_address = read_field::<bool>(members, "needShippingAddress")?;
        let send_phone_number_to_provider = read_field::<bool>(
            members,
            "sendPhoneNumberToProvider",
        )?;
        let send_email_address_to_provider = read_field::<bool>(
            members,
            "sendEmailAddressToProvider",
        )?;
        let is_flexible = read_field::<bool>(members, "isFlexible")?;
        Ok(Invoice {
            currency,
            price_parts,
            is_test,
            need_name,
            need_phone_number,
            need_email_address,
            need_shipping_address,
            send_phone_number_to_provider,
            send_email_address_to_provider,
            is_flexible,
        })
    }

    proof fn round_trip(&self, at: Seq<char>) {
        reveal(<Invoice as Wire>::wire);
        reveal(<Invoice as Wire>::parse);
        reveal_strlit("@type");
        reveal_strlit("currency");
        reveal_strlit("isFlexible");
        reveal_strlit("isTest");
        reveal_strlit("needEmailAddress");
        reveal_strlit("needName");
        reveal_strlit("needPhoneNumber");
        reveal_strlit("needShippingAddress");
        reveal_strlit("priceParts");
        reveal_strlit("sendEmailAddressToProvider");
        reveal_strlit("sendPhoneNumberToProvider");
        assert("@type"@.len() == 5);
        assert("currency"@.len() == 8 && "currency"@[0] == 'c');
        assert("isFlexible"@.len() == 10 && "isFlexible"@[0] == 'i');
        assert("isTest"@.len() == 6);
        assert("needEmailAddress"@.len() == 16);
        assert("needName"@.len() == 8 && "needName"@[0] == 'n');
        assert("needPhoneNumber"@.len() == 15);
        assert("needShippingAddress"@.len() == 19);
        assert("priceParts"@.len() == 10 && "priceParts"@[0] == 'p');
        assert("sendEmailAddressToProvider"@.len() == 26);
        assert("sendPhoneNumberToProvider"@.len() == 25);
        self.currency.round_trip("currency"@);
        self.price_parts.round_trip("priceParts"@);
        self.is_test.round_trip("isTest"@);
        self.need_name.round_trip("needName"@);
        self.need_phone_number.round_trip("needPhoneNumber"@);
        self.need_email_address.round_trip("needEmailAddress"@);
        self.need_shipping_address.round_trip("needShippingAddress"@);
        self.send_phone_number_to_provider.round_trip("sendPhoneNumberToProvider"@);
        self.send_email_address_to_provider.round_trip("sendEmailAddressToProvider"@);
        self.is_flexible.round_trip("isFlexible"@);
        let m = self.wire()->Object_0;
        assert(field::<String>(m, "currency"@) == Ok::<Doc, Fault>(self.currency.wire()));
        assert(field::<Vec<LabeledPricePart>>(m, "priceParts"@)
            == Ok::<Doc, Fault>(self.price_parts.wire()));
        assert(field::<bool>(m, "isTest"@) == Ok::<Doc, Fault>(self.is_test.wire()));
        assert(field::<bool>(m, "needName"@) == Ok::<Doc, Fault>(self.need_name.wire()));
        assert(field::<bool>(m, "needPhoneNumber"@)
            == Ok::<Doc, Fault>(self.need_phone_number.wire()));
        assert(field::<bool>(m, "needEmailAddress"@)
            == Ok::<Doc, Fault>(self.need_email_address.wire()));
        assert(field::<bool>(m, "needShippingAddress"@)
            == Ok::<Doc, Fault>(self.need_shipping_address.wire()));
        assert(field::<bool>(m, "sendPhoneNumberToProvider"@)
            == Ok::<Doc, Fault>(self.send_phone_number_to_provider.wire()));
        assert(field::<bool>(m, "sendEmailAddressToProvider"@)
            == Ok::<Doc, Fault>(self.send_email_address_to_provider.wire()));
        assert(field::<bool>(m, "isFlexible"@) == Ok::<Doc, Fault>(self.is_flexible.wire()));
    }
}

impl Tagged for Invoice {
    open spec fn known(tag: Seq<char>) -> bool {
        tag == "invoice"@
    }

    fn knows(tag: &str) -> (r: bool) {
        same_text(tag, "invoice")
    }

    proof fn tag_known(&self) {
        reveal(<Invoice as Wire>::wire);
        assert(tag_of(self.wire()) == Some("invoice"@));
        assert(Self::known("invoice"@));
    }
}

/// Order information
#[derive(Debug, Clone, PartialEq)]
pub struct OrderInfo {
    /// Name of the user
    pub name: String,
    /// Phone number of the user
    pub phone_number: String,
    /// Email address of the user
    pub email_address: String,
    /// Shipping address for this order; may be null
    pub shipping_address: Option<Address>,
}

impl Wire for OrderInfo {
    #[verifier::opaque]
    open spec fn wire(&self) -> Doc {
        tagged(
            Map::empty()
                .insert("name"@, self.name.wire())
                .insert("phoneNumber"@, self.phone_number.wire())
                .insert("emailAddress"@, self.email_address.wire())
                .insert("shippingAddress"@, self.shipping_address.wire()),
            "orderInfo"@,
        )
    }

    #[verifier::opaque]
    open spec fn parse(d: Doc, at: Seq<char>) -> Result<Doc, Fault> {
        match d {
            Doc::Object(m) => {
                let name = field::<String>(m, "name"@);
                let phone_number = field::<String>(m, "phoneNumber"@);
                let email_address = field::<String>(m, "emailAddress"@);
                let shipping_address = optional_field::<Address>(m, "shippingAddress"@);
                if name is Err {
                    name
                } else if phone_number is Err {
                    phone_number
                } else if email_address is Err {
                    email_address
                } else if shipping_address is Err {
                    shipping_address
                } else {
                    Ok(
                        tagged(
                            Map::empty()
                                .insert("name"@, name->Ok_0)
                                .insert("phoneNumber"@, phone_number->Ok_0)
                                .insert("emailAddress"@, email_address->Ok_0)
                                .insert("shippingAddress"@, shipping_address->Ok_0),
                            "orderInfo"@,
                        ),
                    )
                }
            },
            _ => Err(Fault::TypeMismatch(at)),
        }
    }

    fn encode(&self) -> (j: Json) {
        proof {
            reveal(<OrderInfo as Wire>::wire);
        }
        let mut members: Vec<Member> = Vec::new();
        put(&mut members, "name", self.name.encode());
        put(&mut members, "phoneNumber", self.phone_number.encode());
        put(&mut members, "emailAddress", self.email_address.encode());
        put(&mut members, "shippingAddress", self.shipping_address.encode());
        seal(members, "orderInfo")
    }

    fn decode(j: &Json, at: &str) -> (r: Result<Self, DecodeError>) {
        proof {
            reveal(<OrderInfo as Wire>::wire);
            reveal(<OrderInfo as Wire>::parse);
        }
        let members = members_of(j, at)?;
        let name = read_field::<String>(members, "name")?;
        let phone_number = read_field::<String>(members, "phoneNumber")?;
        let email_address = read_field::<String>(members, "emailAddress")?;
        let shipping_address = read_optional::<Address>(members, "shippingAddress")?;
        Ok(OrderInfo { name, phone_number, email_address, shipping_address })
    }

    proof fn round_trip(&self, at: Seq<char>) {
        reveal(<OrderInfo as Wire>::wire);
        reveal(<OrderInfo as Wire>::parse);
        reveal_strlit("@type");
        reveal_strlit("emailAddress");
        reveal_strlit("name");
        reveal_strlit("phoneNumber");
        reveal_strlit("shippingAddress");
        assert("@type"@.len() == 5);
        assert("emailAddress"@.len() == 12);
        assert("name"@.len() == 4);
        assert("phoneNumber"@.len() == 11);
        assert("shippingAddress"@.len() == 15);
        self.name.round_trip("name"@);
        self.phone_number.round_trip("phoneNumber"@);
        self.email_address.round_trip("emailAddress"@);
        self.shipping_address.round_trip("shippingAddress"@);
    }
}

impl Tagged for OrderInfo {
    open spec fn known(tag: Seq<char>) -> bool {
        tag == "orderInfo"@
    }

    fn knows(tag: &str) -> (r: bool) {
        same_text(tag, "orderInfo")
    }

    proof fn tag_known(&self) {
        reveal(<OrderInfo as Wire>::wire);
        assert(tag_of(self.wire()) == Some("orderInfo"@));
        assert(Self::known("orderInfo"@));
    }
}

/// One shipping option
#[derive(Debug, Clone, PartialEq)]
pub struct ShippingOption {
    /// Shipping option identifier
    pub id: String,
    /// Option title
    pub title: String,
    /// A list of objects used to calculate the total shipping costs
    pub price_parts: Vec<LabeledPricePart>,
}

impl Wire for ShippingOption {
    #[verifier::opaque]
    open spec fn wire(&self) -> Doc {
        tagged(
            Map::empty()
                .insert("id"@, self.id.wire())
                .insert("title"@, self.title.wire())
                .insert("priceParts"@, self.price_parts.wire()),
            "shippingOption"@,
        )
    }

    #[verifier::opaque]
    open spec fn parse(d: Doc, at: Seq<char>) -> Result<Doc, Fault> {
        match d {
            Doc::Object(m) => {
                let id = field::<String>(m, "id"@);
                let title = field::<String>(m, "title"@);
                let price_parts = field::<Vec<LabeledPricePart>>(m, "priceParts"@);
                if id is Err {
                    id
                } else if title is Err {
                    title
                } else if price_parts is Err {
                    price_parts
                } else {
                    Ok(
                        tagged(
                            Map::empty()
                                .insert("id"@, id->Ok_0)
                                .insert("title"@, title->Ok_0)
                                .insert("priceParts"@, price_parts->Ok_0),
                            "shippingOption"@,
                        ),
                    )
                }
            },
            _ => Err(Fault::TypeMismatch(at)),
        }
    }

    fn encode(&self) -> (j: Json) {
        proof {
            reveal(<ShippingOption as Wire>::wire);
        }
        let mut members: Vec<Member> = Vec::new();
        put(&mut members, "id", self.id.encode());
        put(&mut members, "title", self.title.encode());
        put(&mut members, "priceParts", self.price_parts.encode());
        seal(members, "shippingOption")
    }

    fn decode(j: &Json, at: &str) -> (r: Result<Self, DecodeError>) {
        proof {
            reveal(<ShippingOption as Wire>::wire);
            reveal(<ShippingOption as Wire>::parse);
        }
        let members = members_of(j, at)?;
        let id = read_field::<String>(members, "id")?;
        let title = read_field::<String>(members, "title")?;
        let price_parts = read_field::<Vec<LabeledPricePart>>(members, "priceParts")?;
        Ok(ShippingOption { id, title, price_parts })
    }

    proof fn round_trip(&self, at: Seq<char>) {
        reveal(<ShippingOption as Wire>::wire);
        reveal(<ShippingOption as Wire>::parse);
        reveal_strlit("@type");
        reveal_strlit("id");
        reveal_strlit("priceParts");
        reveal_strlit("title");
        assert("@type"@.len() == 5 && "@type"@[0] == '@');
        assert("id"@.len() == 2);
        assert("priceParts"@.len() == 10);
        assert("title"@.len() == 5 && "title"@[0] == 't');
        self.id.round_trip("id"@);
        self.title.round_trip("title"@);
        self.price_parts.round_trip("priceParts"@);
    }
}

impl Tagged for ShippingOption {
    open spec fn known(tag: Seq<char>) -> bool {
        tag == "shippingOption"@
    }

    fn knows(tag: &str) -> (r: bool) {
        same_text(tag, "shippingOption")
    }

    proof fn tag_known(&self) {
        reveal(<ShippingOption as Wire>::wire);
        assert(tag_of(self.wire()) == Some("shippingOption"@));
        assert(Self::known("shippingOption"@));
    }
}

/// Contains information about saved card credentials
#[derive(Debug, Clone, PartialEq)]
pub struct SavedCredentials {
    /// Unique identifier of the saved credentials
    pub id: String,
    /// Title of the saved credentials
    pub title: String,
}

impl Wire for SavedCredentials {
    #[verifier::opaque]
    open spec fn wire(&self) -> Doc {
        tagged(
            Map::empty()
                .insert("id"@, self.id.wire())
                .insert("title"@, self.title.wire()),
            "savedCredentials"@,
        )
    }

    #[verifier::opaque]
    open spec fn parse(d: Doc, at: Seq<char>) -> Result<Doc, Fault> {
        match d {
            Doc::Object(m) => {
                let id = field::<String>(m, "id"@);
                let title = field::<String>(m, "title"@);
                if id is Err {
                    id
                } else if title is Err {
                    title
                } else {
                    Ok(
                        tagged(
                            Map::empty()
                                .insert("id"@, id->Ok_0)
                                .insert("title"@, title->Ok_0),
                            "savedCredentials"@,
                        ),
                    )
                }
            },
            _ => Err(Fault::TypeMismatch(at)),
        }
    }

    fn encode(&self) -> (j: Json) {
        proof {
            reveal(<SavedCredentials as Wire>::wire);
        }
        let mut members: Vec<Member> = Vec::new();
        put(&mut members, "id", self.id.encode());
        put(&mut members, "title", self.title.encode());
        seal(members, "savedCredentials")
    }

    fn decode(j: &Json, at: &str) -> (r: Result<Self, DecodeError>) {
        proof {
            reveal(<SavedCredentials as Wire>::wire);
            reveal(<SavedCredentials as Wire>::parse);
        }
        let members = members_of(j, at)?;
        let id = read_field::<String>(members, "id")?;
        let title = read_field::<String>(members, "title")?;
        Ok(SavedCredentials { id, title })
    }

    proof fn round_trip(&self, at: Seq<char>) {
        reveal(<SavedCredentials as Wire>::wire);
        reveal(<SavedCredentials as Wire>::parse);
        reveal_strlit("@type");
        reveal_strlit("id");
        reveal_strlit("title");
        assert("@type"@.len() == 5 && "@type"@[0] == '@');
        assert("id"@.len() == 2);
        assert("title"@.len() == 5 && "title"@[0] == 't');
        self.id.round_trip("id"@);
        self.title.round_trip("title"@);
    }
}

impl Tagged for SavedCredentials {
    open spec fn known(tag: Seq<char>) -> bool {
        tag == "savedCredentials"@
    }

    fn knows(tag: &str) -> (r: bool) {
        same_text(tag, "savedCredentials")
    }

    proof fn tag_known(&self) {
        reveal(<SavedCredentials as Wire>::wire);
        assert(tag_of(self.wire()) == Some("savedCredentials"@));
        assert(Self::known("savedCredentials"@));
    }
}

/// Applies if a user chooses some previously saved payment credentials. To use their previously
/// saved credentials, the user must have a valid temporary password
#[derive(Debug, Clone, PartialEq)]
pub struct InputCredentialsSaved {
    /// Identifier of the saved credentials
    pub saved_credentials_id: String,
}

impl Wire for InputCredentialsSaved {
    #[verifier::opaque]
    open spec fn wire(&self) -> Doc {
        tagged(
            Map::empty()
                .insert("savedCredentialsId"@, self.saved_credentials_id.wire()),
            "inputCredentialsSaved"@,
        )
    }

    #[verifier::opaque]
    open spec fn parse(d: Doc, at: Seq<char>) -> Result<Doc, Fault> {
        match d {
            Doc::Object(m) => {
                let saved_credentials_id = field::<String>(m, "savedCredentialsId"@);
                if saved_credentials_id is Err {
                    saved_credentials_id
                } else {
                    Ok(
                        tagged(
                            Map::empty()
                                .insert("savedCredentialsId"@, saved_credentials_id->Ok_0),
                            "inputCredentialsSaved"@,
                        ),
                    )
                }
            },
            _ => Err(Fault::TypeMismatch(at)),
        }
    }

    fn encode(&self) -> (j: Json) {
        proof {
            reveal(<InputCredentialsSaved as Wire>::wire);
        }
        let mut members: Vec<Member> = Vec::new();
        put(&mut members, "savedCredentialsId", self.saved_credentials_id.encode());
        seal(members, "inputCredentialsSaved")
    }

    fn decode(j: &Json, at: &str) -> (r: Result<Self, DecodeError>) {
        proof {
            reveal(<InputCredentialsSaved as Wire>::wire);
            reveal(<InputCredentialsSaved as Wire>::parse);
        }
        let members = members_of(j, at)?;
        let saved_credentials_id = read_field::<String>(members, "savedCredentialsId")?;
        Ok(InputCredentialsSaved { saved_credentials_id })
    }

    proof fn round_trip(&self, at: Seq<char>) {
        reveal(<InputCredentialsSaved as Wire>::wire);
        reveal(<InputCredentialsSaved as Wire>::parse);
        reveal_strlit("@type");
        reveal_strlit("savedCredentialsId");
        assert("@type"@.len() == 5);
        assert("savedCredentialsId"@.len() == 18);
        self.saved_credentials_id.round_trip("savedCredentialsId"@);
    }
}

impl Tagged for InputCredentialsSaved {
    open spec fn known(tag: Seq<char>) -> bool {
        tag == "inputCredentialsSaved"@
    }

    fn knows(tag: &str) -> (r: bool) {
        same_text(tag, "inputCredentialsSaved")
    }

    proof fn tag_known(&self) {
        reveal(<InputCredentialsSaved as Wire>::wire);
        assert(tag_of(self.wire()) == Some("inputCredentialsSaved"@));
        assert(Self::known("inputCredentialsSaved"@));
    }
}

/// Applies if a user enters new credentials on a payment provider website
#[derive(Debug, Clone, PartialEq)]
pub struct InputCredentialsNew {
    /// Contains JSON-encoded data with a credential identifier from the payment provider
    pub data: String,
    /// True, if the credential identifier can be saved on the server side
    pub allow_save: bool,
}

impl Wire for InputCredentialsNew {
    #[verifier::opaque]
    open spec fn wire(&self) -> Doc {
        tagged(
            Map::empty()
                .insert("data"@, self.data.wire())
                .insert("allowSave"@, self.allow_save.wire()),
            "inputCredentialsNew"@,
        )
    }

    #[verifier::opaque]
    open spec fn parse(d: Doc, at: Seq<char>) -> Result<Doc, Fault> {
        match d {
            Doc::Object(m) => {
                let data = field::<String>(m, "data"@);
                let allow_save = field::<bool>(m, "allowSave"@);
                if data is Err {
                    data
                } else if allow_save is Err {
                    allow_save
                } else {
                    Ok(
                        tagged(
                            Map::empty()
                                .insert("data"@, data->Ok_0)
                                .insert("allowSave"@, allow_save->Ok_0),
                            "inputCredentialsNew"@,
                        ),
                    )
                }
            },
            _ => Err(Fault::TypeMismatch(at)),
        }
    }

    fn encode(&self) -> (j: Json) {
        proof {
            reveal(<InputCredentialsNew as Wire>::wire);
        }
        let mut members: Vec<Member> = Vec::new();
        put(&mut members, "data", self.data.encode());
        put(&mut members, "allowSave", self.allow_save.encode());
        seal(members, "inputCredentialsNew")
    }

    fn decode(j: &Json, at: &str) -> (r: Result<Self, DecodeError>) {
        proof {
            reveal(<InputCredentialsNew as Wire>::wire);
            reveal(<InputCredentialsNew as Wire>::parse);
        }
        let members = members_of(j, at)?;
        let data = read_field::<String>(members, "data")?;
        let allow_save = read_field::<bool>(members, "allowSave")?;
        Ok(InputCredentialsNew { data, allow_save })
    }

    proof fn round_trip(&self, at: Seq<char>) {
        reveal(<InputCredentialsNew as Wire>::wire);
        reveal(<InputCredentialsNew as Wire>::parse);
        reveal_strlit("@type");
        reveal_strlit("allowSave");
        reveal_strlit("data");
        assert("@type"@.len() == 5);
        assert("allowSave"@.len() == 9);
        assert("data"@.len() == 4);
        self.data.round_trip("data"@);
        self.allow_save.round_trip("allowSave"@);
    }
}

impl Tagged for InputCredentialsNew {
    open spec fn known(tag: Seq<char>) -> bool {
        tag == "inputCredentialsNew"@
    }

    fn knows(tag: &str) -> (r: bool) {
        same_text(tag, "inputCredentialsNew")
    }

    proof fn tag_known(&self) {
        reveal(<InputCredentialsNew as Wire>::wire);
        assert(tag_of(self.wire()) == Some("inputCredentialsNew"@));
        assert(Self::known("inputCredentialsNew"@));
    }
}

/// Applies if a user enters new credentials using Android Pay
#[derive(Debug, Clone, PartialEq)]
pub struct InputCredentialsAndroidPay {
    /// JSON-encoded data with the credential identifier
    pub data: String,
}

impl Wire for InputCredentialsAndroidPay {
    #[verifier::opaque]
    open spec fn wire(&self) -> Doc {
        tagged(
            Map::empty()
                .insert("data"@, self.data.wire()),
            "inputCredentialsAndroidPay"@,
        )
    }

    #[verifier::opaque]
    open spec fn parse(d: Doc, at: Seq<char>) -> Result<Doc, Fault> {
        match d {
            Doc::Object(m) => {
                let data = field::<String>(m, "data"@);
                if data is Err {
                    data
                } else {
                    Ok(
                        tagged(
                            Map::empty()
                                .insert("data"@, data->Ok_0),
                            "inputCredentialsAndroidPay"@,
                        ),
                    )
                }
            },
            _ => Err(Fault::TypeMismatch(at)),
        }
    }

    fn encode(&self) -> (j: Json) {
        proof {
            reveal(<InputCredentialsAndroidPay as Wire>::wire);
        }
        let mut members: Vec<Member> = Vec::new();
        put(&mut members, "data", self.data.encode());
        seal(members, "inputCredentialsAndroidPay")
    }

    fn decode(j: &Json, at: &str) -> (r: Result<Self, DecodeError>) {
        proof {
            reveal(<InputCredentialsAndroidPay as Wire>::wire);
            reveal(<InputCredentialsAndroidPay as Wire>::parse);
        }
        let members = members_of(j, at)?;
        let data = read_field::<String>(members, "data")?;
        Ok(InputCredentialsAndroidPay { data })
    }

    proof fn round_trip(&self, at: Seq<char>) {
        reveal(<InputCredentialsAndroidPay as Wire>::wire);
        reveal(<InputCredentialsAndroidPay as Wire>::parse);
        reveal_strlit("@type");
        reveal_strlit("data");
        assert("@type"@.len() == 5);
        assert("data"@.len() == 4);
        self.data.round_trip("data"@);
    }
}

impl Tagged for InputCredentialsAndroidPay {
    open spec fn known(tag: Seq<char>) -> bool {
        tag == "inputCredentialsAndroidPay"@
    }

    fn knows(tag: &str) -> (r: bool) {
        same_text(tag, "inputCredentialsAndroidPay")
    }

    proof fn tag_known(&self) {
        reveal(<InputCredentialsAndroidPay as Wire>::wire);
        assert(tag_of(self.wire()) == Some("inputCredentialsAndroidPay"@));
        assert(Self::known("inputCredentialsAndroidPay"@));
    }
}

/// Applies if a user enters new credentials using Apple Pay
#[derive(Debug, Clone, PartialEq)]
pub struct InputCredentialsApplePay {
    /// JSON-encoded data with the credential identifier
    pub data: String,
}

impl Wire for InputCredentialsApplePay {
    #[verifier::opaque]
    open spec fn wire(&self) -> Doc {
        tagged(
            Map::empty()
                .insert("data"@, self.data.wire()),
            "inputCredentialsApplePay"@,
        )
    }

    #[verifier::opaque]
    open spec fn parse(d: Doc, at: Seq<char>) -> Result<Doc, Fault> {
        match d {
            Doc::Object(m) => {
                let data = field::<String>(m, "data"@);
                if data is Err {
                    data
                } else {
                    Ok(
                        tagged(
                            Map::empty()
                                .insert("data"@, data->Ok_0),
                            "inputCredentialsApplePay"@,
                        ),
                    )
                }
            },
            _ => Err(Fault::TypeMismatch(at)),
        }
    }

    fn encode(&self) -> (j: Json) {
        proof {
            reveal(<InputCredentialsApplePay as Wire>::wire);
        }
        let mut members: Vec<Member> = Vec::new();
        put(&mut members, "data", self.data.encode());
        seal(members, "inputCredentialsApplePay")
    }

    fn decode(j: &Json, at: &str) -> (r: Result<Self, DecodeError>) {
        proof {
            reveal(<InputCredentialsApplePay as Wire>::wire);
            reveal(<InputCredentialsApplePay as Wire>::parse);
        }
        let members = members_of(j, at)?;
        let data = read_field::<String>(members, "data")?;
        Ok(InputCredentialsApplePay { data })
    }

    proof fn round_trip(&self, at: Seq<char>) {
        reveal(<InputCredentialsApplePay as Wire>::wire);
        reveal(<InputCredentialsApplePay as Wire>::parse);
        reveal_strlit("@type");
        reveal_strlit("data");
        assert("@type"@.len() == 5);
        assert("data"@.len() == 4);
        self.data.round_trip("data"@);
    }
}

impl Tagged for InputCredentialsApplePay {
    open spec fn known(tag: Seq<char>) -> bool {
        tag == "inputCredentialsApplePay"@
    }

    fn knows(tag: &str) -> (r: bool) {
        same_text(tag, "inputCredentialsApplePay")
    }

    proof fn tag_known(&self) {
        reveal(<InputCredentialsApplePay as Wire>::wire);
        assert(tag_of(self.wire()) == Some("inputCredentialsApplePay"@));
        assert(Self::known("inputCredentialsApplePay"@));
    }
}

/// Contains information about the payment method chosen by the user
#[derive(Debug, Clone, PartialEq)]
pub enum InputCredentials {
    InputCredentialsSaved(InputCredentialsSaved),
    InputCredentialsNew(InputCredentialsNew),
    InputCredentialsAndroidPay(InputCredentialsAndroidPay),
    InputCredentialsApplePay(InputCredentialsApplePay),
}

impl Wire for InputCredentials {
    #[verifier::opaque]
    open spec fn wire(&self) -> Doc {
        match self {
            Self::InputCredentialsSaved(p) => p.wire(),
            Self::InputCredentialsNew(p) => p.wire(),
            Self::InputCredentialsAndroidPay(p) => p.wire(),
            Self::InputCredentialsApplePay(p) => p.wire(),
        }
    }

    #[verifier::opaque]
    open spec fn parse(d: Doc, at: Seq<char>) -> Result<Doc, Fault> {
        match d {
            Doc::Object(_) => match tag_of(d) {
                Some(t) => if t == "inputCredentialsSaved"@ {
                    InputCredentialsSaved::parse(d, at)
                } else if t == "inputCredentialsNew"@ {
                    InputCredentialsNew::parse(d, at)
                } else if t == "inputCredentialsAndroidPay"@ {
                    InputCredentialsAndroidPay::parse(d, at)
                } else if t == "inputCredentialsApplePay"@ {
                    InputCredentialsApplePay::parse(d, at)
                } else {
                    Err(Fault::UnknownVariant(t))
                },
                None => Err(Fault::MissingDiscriminator),
            },
            _ => Err(Fault::TypeMismatch(at)),
        }
    }

    fn encode(&self) -> (j: Json) {
        proof {
            reveal(<InputCredentials as Wire>::wire);
        }
        match self {
            Self::InputCredentialsSaved(p) => p.encode(),
            Self::InputCredentialsNew(p) => p.encode(),
            Self::InputCredentialsAndroidPay(p) => p.encode(),
            Self::InputCredentialsApplePay(p) => p.encode(),
        }
    }

    fn decode(j: &Json, at: &str) -> (r: Result<Self, DecodeError>) {
        proof {
            reveal(<InputCredentials as Wire>::wire);
            reveal(<InputCredentials as Wire>::parse);
        }
        let members = members_of(j, at)?;
        let tag = discriminator(members)?;
        if same_text(tag, "inputCredentialsSaved") {
            Ok(Self::InputCredentialsSaved(InputCredentialsSaved::decode(j, at)?))
        } else if same_text(tag, "inputCredentialsNew") {
            Ok(Self::InputCredentialsNew(InputCredentialsNew::decode(j, at)?))
        } else if same_text(tag, "inputCredentialsAndroidPay") {
            Ok(Self::InputCredentialsAndroidPay(InputCredentialsAndroidPay::decode(j, at)?))
        } else if same_text(tag, "inputCredentialsApplePay") {
            Ok(Self::InputCredentialsApplePay(InputCredentialsApplePay::decode(j, at)?))
        } else {
            Err(DecodeError::UnknownVariant(tag.to_owned()))
        }
    }

    proof fn round_trip(&self, at: Seq<char>) {
        reveal(<InputCredentials as Wire>::wire);
        reveal(<InputCredentials as Wire>::parse);
        reveal_strlit("inputCredentialsAndroidPay");
        reveal_strlit("inputCredentialsApplePay");
        reveal_strlit("inputCredentialsNew");
        reveal_strlit("inputCredentialsSaved");
        assert("inputCredentialsAndroidPay"@.len() == 26);
        assert("inputCredentialsApplePay"@.len() == 24);
        assert("inputCredentialsNew"@.len() == 19);
        assert("inputCredentialsSaved"@.len() == 21);
        match self {
            Self::InputCredentialsSaved(p) => {
                p.tag_known();
                p.round_trip(at);
            },
            Self::InputCredentialsNew(p) => {
                p.tag_known();
                p.round_trip(at);
            },
            Self::InputCredentialsAndroidPay(p) => {
                p.tag_known();
                p.round_trip(at);
            },
            Self::InputCredentialsApplePay(p) => {
                p.tag_known();
                p.round_trip(at);
            },
        }
    }
}

impl Tagged for InputCredentials {
    open spec fn known(tag: Seq<char>) -> bool {
        ||| tag == "inputCredentialsSaved"@
        ||| tag == "inputCredentialsNew"@
        ||| tag == "inputCredentialsAndroidPay"@
        ||| tag == "inputCredentialsApplePay"@
    }

    fn knows(tag: &str) -> (r: bool) {
        same_text(tag, "inputCredentialsSaved")
            || same_text(tag, "inputCredentialsNew")
            || same_text(tag, "inputCredentialsAndroidPay")
            || same_text(tag, "inputCredentialsApplePay")
    }

    proof fn tag_known(&self) {
        reveal(<InputCredentials as Wire>::wire);
        match self {
            Self::InputCredentialsSaved(p) => p.tag_known(),
            Self::InputCredentialsNew(p) => p.tag_known(),
            Self::InputCredentialsAndroidPay(p) => p.tag_known(),
            Self::InputCredentialsApplePay(p) => p.tag_known(),
        }
    }
}

impl Union for InputCredentials {
    proof fn unknown_rejected(d: Doc, at: Seq<char>) {
        reveal(<InputCredentials as Wire>::parse);
    }

    proof fn untagged_rejected(d: Doc, at: Seq<char>) {
        reveal(<InputCredentials as Wire>::parse);
    }
}

/// Stripe payment provider
#[derive(Debug, Clone, PartialEq)]
pub struct PaymentsProviderStripe {
    /// Stripe API publishable key
    pub publishable_key: String,
    /// True, if the user country must be provided
    pub need_country: bool,
    /// True, if the user ZIP/postal code must be provided
    pub need_postal_code: bool,
    /// True, if the cardholder name must be provided
    pub need_cardholder_name: bool,
}

impl Wire for PaymentsProviderStripe {
    #[verifier::opaque]
    open spec fn wire(&self) -> Doc {
        tagged(
            Map::empty()
                .insert("publishableKey"@, self.publishable_key.wire())
                .insert("needCountry"@, self.need_country.wire())
                .insert("needPostalCode"@, self.need_postal_code.wire())
                .insert("needCardholderName"@, self.need_cardholder_name.wire()),
            "paymentsProviderStripe"@,
        )
    }

    #[verifier::opaque]
    open spec fn parse(d: Doc, at: Seq<char>) -> Result<Doc, Fault> {
        match d {
            Doc::Object(m) => {
                let publishable_key = field::<String>(m, "publishableKey"@);
                let need_country = field::<bool>(m, "needCountry"@);
                let need_postal_code = field::<bool>(m, "needPostalCode"@);
                let need_cardholder_name = field::<bool>(m, "needCardholderName"@);
                if publishable_key is Err {
                    publishable_key
                } else if need_country is Err {
                    need_country
                } else if need_postal_code is Err {
                    need_postal_code
                } else if need_cardholder_name is Err {
                    need_cardholder_name
                } else {
                    Ok(
                        tagged(
                            Map::empty()
                                .insert("publishableKey"@, publishable_key->Ok_0)
                                .insert("needCountry"@, need_country->Ok_0)
                                .insert("needPostalCode"@, need_postal_code->Ok_0)
                                .insert("needCardholderName"@, need_cardholder_name->Ok_0),
                            "paymentsProviderStripe"@,
                        ),
                    )
                }
            },
            _ => Err(Fault::TypeMismatch(at)),
        }
    }

    fn encode(&self) -> (j: Json) {
        proof {
            reveal(<PaymentsProviderStripe as Wire>::wire);
        }
        let mut members: Vec<Member> = Vec::new();
        put(&mut members, "publishableKey", self.publishable_key.encode());
        put(&mut members, "needCountry", self.need_country.encode());
        put(&mut members, "needPostalCode", self.need_postal_code.encode());
        put(&mut members, "needCardholderName", self.need_cardholder_name.encode());
        seal(members, "paymentsProviderStripe")
    }

    fn decode(j: &Json, at: &str) -> (r: Result<Self, DecodeError>) {
        proof {
            reveal(<PaymentsProviderStripe as Wire>::wire);
            reveal(<PaymentsProviderStripe as Wire>::parse);
        }
        let members = members_of(j, at)?;
        let publishable_key = read_field::<String>(members, "publishableKey")?;
        let need_country = read_field::<bool>(members, "needCountry")?;
        let need_postal_code = read_field::<bool>(members, "needPostalCode")?;
        let need_cardholder_name = read_field::<bool>(members, "needCardholderName")?;
        Ok(PaymentsProviderStripe {
            publishable_key,
            need_country,
            need_postal_code,
            need_cardholder_name,
        })
    }

    proof fn round_trip(&self, at: Seq<char>) {
        reveal(<PaymentsProviderStripe as Wire>::wire);
        reveal(<PaymentsProviderStripe as Wire>::parse);
        reveal_strlit("@type");
        reveal_strlit("needCardholderName");
        reveal_strlit("needCountry");
        reveal_strlit("needPostalCode");
        reveal_strlit("publishableKey");
        assert("@type"@.len() == 5);
        assert("needCardholderName"@.len() == 18);
        assert("needCountry"@.len() == 11);
        assert("needPostalCode"@.len() == 14 && "needPostalCode"@[0] == 'n');
        assert("publishableKey"@.len() == 14 && "publishableKey"@[0] == 'p');
        self.publishable_key.round_trip("publishableKey"@);
        self.need_country.round_trip("needCountry"@);
        self.need_postal_code.round_trip("needPostalCode"@);
        self.need_cardholder_name.round_trip("needCardholderName"@);
    }
}

impl Tagged for PaymentsProviderStripe {
    open spec fn known(tag: Seq<char>) -> bool {
        tag == "paymentsProviderStripe"@
    }

    fn knows(tag: &str) -> (r: bool) {
        same_text(tag, "paymentsProviderStripe")
    }

    proof fn tag_known(&self) {
        reveal(<PaymentsProviderStripe as Wire>::wire);
        assert(tag_of(self.wire()) == Some("paymentsProviderStripe"@));
        assert(Self::known("paymentsProviderStripe"@));
    }
}

/// Contains information about an invoice payment form
#[derive(Debug, Clone, PartialEq)]
pub struct PaymentForm {
    /// Full information of the invoice
    pub invoice: Invoice,
    /// Payment form URL
    pub url: String,
    /// Contains information about the payment provider, if available, to support it natively
    /// without the need for opening the URL; may be null
    pub payments_provider: Option<PaymentsProviderStripe>,
    /// Saved server-side order information; may be null
    pub saved_order_info: Option<OrderInfo>,
    /// Contains information about saved card credentials; may be null
    pub saved_credentials: Option<SavedCredentials>,
    /// True, if the user can choose to save credentials
    pub can_save_credentials: bool,
    /// True, if the user will be able to save credentials protected by a password they set up
    pub need_password: bool,
}

impl Wire for PaymentForm {
    #[verifier::opaque]
    open spec fn wire(&self) -> Doc {
        tagged(
            Map::empty()
                .insert("invoice"@, self.invoice.wire())
                .insert("url"@, self.url.wire())
                .insert("paymentsProvider"@, self.payments_provider.wire())
                .insert("savedOrderInfo"@, self.saved_order_info.wire())
                .insert("savedCredentials"@, self.saved_credentials.wire())
                .insert("canSaveCredentials"@, self.can_save_credentials.wire())
                .insert("needPassword"@, self.need_password.wire()),
            "paymentForm"@,
        )
    }

    #[verifier::opaque]
    open spec fn parse(d: Doc, at: Seq<char>) -> Result<Doc, Fault> {
        match d {
            Doc::Object(m) => {
                let invoice = field::<Invoice>(m, "invoice"@);
                let url = field::<String>(m, "url"@);
                let payments_provider = optional_field::<PaymentsProviderStripe>(
                    m,
                    "paymentsProvider"@,
                );
                let saved_order_info = optional_field::<OrderInfo>(m, "savedOrderInfo"@);
                let saved_credentials = optional_field::<SavedCredentials>(m, "savedCredentials"@);
                let can_save_credentials = field::<bool>(m, "canSaveCredentials"@);
                let need_password = field::<bool>(m, "needPassword"@);
                if invoice is Err {
                    invoice
                } else if url is Err {
                    url
                } else if payments_provider is Err {
                    payments_provider
                } else if saved_order_info is Err {
                    saved_order_info
                } else if saved_credentials is Err {
                    saved_credentials
                } else if can_save_credentials is Err {
                    can_save_credentials
                } else if need_password is Err {
                    need_password
                } else {
                    Ok(
                        tagged(
                            Map::empty()
                                .insert("invoice"@, invoice->Ok_0)
                                .insert("url"@, url->Ok_0)
                                .insert("paymentsProvider"@, payments_provider->Ok_0)
                                .insert("savedOrderInfo"@, saved_order_info->Ok_0)
                                .insert("savedCredentials"@, saved_credentials->Ok_0)
                                .insert("canSaveCredentials"@, can_save_credentials->Ok_0)
                                .insert("needPassword"@, need_password->Ok_0),
                            "paymentForm"@,
                        ),
                    )
                }
            },
            _ => Err(Fault::TypeMismatch(at)),
        }
    }

    fn encode(&self) -> (j: Json) {
        proof {
            reveal(<PaymentForm as Wire>::wire);
        }
        let mut members: Vec<Member> = Vec::new();
        put(&mut members, "invoice", self.invoice.encode());
        put(&mut members, "url", self.url.encode());
        put(&mut members, "paymentsProvider", self.payments_provider.encode());
        put(&mut members, "savedOrderInfo", self.saved_order_info.encode());
        put(&mut members, "savedCredentials", self.saved_credentials.encode());
        put(&mut members, "canSaveCredentials", self.can_save_credentials.encode());
        put(&mut members, "needPassword", self.need_password.encode());
        seal(members, "paymentForm")
    }

    fn decode(j: &Json, at: &str) -> (r: Result<Self, DecodeError>) {
        proof {
            reveal(<PaymentForm as Wire>::wire);
            reveal(<PaymentForm as Wire>::parse);
        }
        let members = members_of(j, at)?;
        let invoice = read_field::<Invoice>(members, "invoice")?;
        let url = read_field::<String>(members, "url")?;
        let payments_provider = read_optional::<PaymentsProviderStripe>(
            members,
            "paymentsProvider",
        )?;
        let saved_order_info = read_optional::<OrderInfo>(members, "savedOrderInfo")?;
        let saved_credentials = read_optional::<SavedCredentials>(members, "savedCredentials")?;
        let can_save_credentials = read_field::<bool>(members, "canSaveCredentials")?;
        let need_password = read_field::<bool>(members, "needPassword")?;
        Ok(PaymentForm {
            invoice,
            url,
            payments_provider,
            saved_order_info,
            saved_credentials,
            can_save_credentials,
            need_password,
        })
    }

    proof fn round_trip(&self, at: Seq<char>) {
        reveal(<PaymentForm as Wire>::wire);
        reveal(<PaymentForm as Wire>::parse);
        reveal_strlit("@type");
        reveal_strlit("canSaveCredentials");
        reveal_strlit("invoice");
        reveal_strlit("needPassword");
        reveal_strlit("paymentsProvider");
        reveal_strlit("savedCredentials");
        reveal_strlit("savedOrderInfo");
        reveal_strlit("url");
        assert("@type"@.len() == 5);
        assert("canSaveCredentials"@.len() == 18);
        assert("invoice"@.len() == 7);
        assert("needPassword"@.len() == 12);
        assert("paymentsProvider"@.len() == 16 && "paymentsProvider"@[0] == 'p');
        assert("savedCredentials"@.len() == 16 && "savedCredentials"@[0] == 's');
        assert("savedOrderInfo"@.len() == 14);
        assert("url"@.len() == 3);
        self.invoice.round_trip("invoice"@);
        self.url.round_trip("url"@);
        self.payments_provider.round_trip("paymentsProvider"@);
        self.saved_order_info.round_trip("savedOrderInfo"@);
        self.saved_credentials.round_trip("savedCredentials"@);
        self.can_save_credentials.round_trip("canSaveCredentials"@);
        self.need_password.round_trip("needPassword"@);
    }
}

impl Tagged for PaymentForm {
    open spec fn known(tag: Seq<char>) -> bool {
        tag == "paymentForm"@
    }

    fn knows(tag: &str) -> (r: bool) {
        same_text(tag, "paymentForm")
    }

    proof fn tag_known(&self) {
        reveal(<PaymentForm as Wire>::wire);
        assert(tag_of(self.wire()) == Some("paymentForm"@));
        assert(Self::known("paymentForm"@));
    }
}

/// Contains a temporary identifier of validated order information, which is stored for one hour.
/// Also contains the available shipping options
#[derive(Debug, Clone, PartialEq)]
pub struct ValidatedOrderInfo {
    /// Temporary identifier of the order information
    pub order_info_id: String,
    /// Available shipping options
    pub shipping_options: Vec<ShippingOption>,
}

impl Wire for ValidatedOrderInfo {
    #[verifier::opaque]
    open spec fn wire(&self) -> Doc {
        tagged(
            Map::empty()
                .insert("orderInfoId"@, self.order_info_id.wire())
                .insert("shippingOptions"@, self.shipping_options.wire()),
            "validatedOrderInfo"@,
        )
    }

    #[verifier::opaque]
    open spec fn parse(d: Doc, at: Seq<char>) -> Result<Doc, Fault> {
        match d {
            Doc::Object(m) => {
                let order_info_id = field::<String>(m, "orderInfoId"@);
                let shipping_options = field::<Vec<ShippingOption>>(m, "shippingOptions"@);
                if order_info_id is Err {
                    order_info_id
                } else if shipping_options is Err {
                    shipping_options
                } else {
                    Ok(
                        tagged(
                            Map::empty()
                                .insert("orderInfoId"@, order_info_id->Ok_0)
                                .insert("shippingOptions"@, shipping_options->Ok_0),
                            "validatedOrderInfo"@,
                        ),
                    )
                }
            },
            _ => Err(Fault::TypeMismatch(at)),
        }
    }

    fn encode(&self) -> (j: Json) {
        proof {
            reveal(<ValidatedOrderInfo as Wire>::wire);
        }
        let mut members: Vec<Member> = Vec::new();
        put(&mut members, "orderInfoId", self.order_info_id.encode());
        put(&mut members, "shippingOptions", self.shipping_options.encode());
        seal(members, "validatedOrderInfo")
    }

    fn decode(j: &Json, at: &str) -> (r: Result<Self, DecodeError>) {
        proof {
            reveal(<ValidatedOrderInfo as Wire>::wire);
            reveal(<ValidatedOrderInfo as Wire>::parse);
        }
        let members = members_of(j, at)?;
        let order_info_id = read_field::<String>(members, "orderInfoId")?;
        let shipping_options = read_field::<Vec<ShippingOption>>(members, "shippingOptions")?;
        Ok(ValidatedOrderInfo { order_info_id, shipping_options })
    }

    proof fn round_trip(&self, at: Seq<char>) {
        reveal(<ValidatedOrderInfo as Wire>::wire);
        reveal(<ValidatedOrderInfo as Wire>::parse);
        reveal_strlit("@type");
        reveal_strlit("orderInfoId");
        reveal_strlit("shippingOptions");
        assert("@type"@.len() == 5);
        assert("orderInfoId"@.len() == 11);
        assert("shippingOptions"@.len() == 15);
        self.order_info_id.round_trip("orderInfoId"@);
        self.shipping_options.round_trip("shippingOptions"@);
    }
}

impl Tagged for ValidatedOrderInfo {
    open spec fn known(tag: Seq<char>) -> bool {
        tag == "validatedOrderInfo"@
    }

    fn knows(tag: &str) -> (r: bool) {
        same_text(tag, "validatedOrderInfo")
    }

    proof fn tag_known(&self) {
        reveal(<ValidatedOrderInfo as Wire>::wire);
        assert(tag_of(self.wire()) == Some("validatedOrderInfo"@));
        assert(Self::known("validatedOrderInfo"@));
    }
}

/// Contains the result of a payment request
#[derive(Debug, Clone, PartialEq)]
pub struct PaymentResult {
    /// True, if the payment request was successful; otherwise the verification_url will be not
    /// empty
    pub success: bool,
    /// URL for additional payment credentials verification
    pub verification_url: String,
}

impl Wire for PaymentResult {
    #[verifier::opaque]
    open spec fn wire(&self) -> Doc {
        tagged(
            Map::empty()
                .insert("success"@, self.success.wire())
                .insert("verificationUrl"@, self.verification_url.wire()),
            "paymentResult"@,
        )
    }

    #[verifier::opaque]
    open spec fn parse(d: Doc, at: Seq<char>) -> Result<Doc, Fault> {
        match d {
            Doc::Object(m) => {
                let success = field::<bool>(m, "success"@);
                let verification_url = field::<String>(m, "verificationUrl"@);
                if success is Err {
                    success
                } else if verification_url is Err {
                    verification_url
                } else {
                    Ok(
                        tagged(
                            Map::empty()
                                .insert("success"@, success->Ok_0)
                                .insert("verificationUrl"@, verification_url->Ok_0),
                            "paymentResult"@,
                        ),
                    )
                }
            },
            _ => Err(Fault::TypeMismatch(at)),
        }
    }

    fn encode(&self) -> (j: Json) {
        proof {
            reveal(<PaymentResult as Wire>::wire);
        }
        let mut members: Vec<Member> = Vec::new();
        put(&mut members, "success", self.success.encode());
        put(&mut members, "verificationUrl", self.verification_url.encode());
        seal(members, "paymentResult")
    }

    fn decode(j: &Json, at: &str) -> (r: Result<Self, DecodeError>) {
        proof {
            reveal(<PaymentResult as Wire>::wire);
            reveal(<PaymentResult as Wire>::parse);
        }
        let members = members_of(j, at)?;
        let success = read_field::<bool>(members, "success")?;
        let verification_url = read_field::<String>(members, "verificationUrl")?;
        Ok(PaymentResult { success, verification_url })
    }

    proof fn round_trip(&self, at: Seq<char>) {
        reveal(<PaymentResult as Wire>::wire);
        reveal(<PaymentResult as Wire>::parse);
        reveal_strlit("@type");
        reveal_strlit("success");
        reveal_strlit("verificationUrl");
        assert("@type"@.len() == 5);
        assert("success"@.len() == 7);
        assert("verificationUrl"@.len() == 15);
        self.success.round_trip("success"@);
        self.verification_url.round_trip("verificationUrl"@);
    }
}

impl Tagged for PaymentResult {
    open spec fn known(tag: Seq<char>) -> bool {
        tag == "paymentResult"@
    }

    fn knows(tag: &str) -> (r: bool) {
        same_text(tag, "paymentResult")
    }

    proof fn tag_known(&self) {
        reveal(<PaymentResult as Wire>::wire);
        assert(tag_of(self.wire()) == Some("paymentResult"@));
        assert(Self::known("paymentResult"@));
    }
}

/// Contains information about a successful payment
#[derive(Debug, Clone, PartialEq)]
pub struct PaymentReceipt {
    /// Point in time (Unix timestamp) when the payment was made
    pub date: i32,
    /// User identifier of the payment provider bot
    pub payments_provider_user_id: i32,
    /// Contains information about the invoice
    pub invoice: Invoice,
    /// Contains order information; may be null
    pub order_info: Option<OrderInfo>,
    /// Chosen shipping option; may be null
    pub shipping_option: Option<ShippingOption>,
    /// Title of the saved credentials
    pub credentials_title: String,
}

impl Wire for PaymentReceipt {
    #[verifier::opaque]
    open spec fn wire(&self) -> Doc {
        tagged(
            Map::empty()
                .insert("date"@, self.date.wire())
                .insert("paymentsProviderUserId"@, self.payments_provider_user_id.wire())
                .insert("invoice"@, self.invoice.wire())
                .insert("orderInfo"@, self.order_info.wire())
                .insert("shippingOption"@, self.shipping_option.wire())
                .insert("credentialsTitle"@, self.credentials_title.wire()),
            "paymentReceipt"@,
        )
    }

    #[verifier::opaque]
    open spec fn parse(d: Doc, at: Seq<char>) -> Result<Doc, Fault> {
        match d {
            Doc::Object(m) => {
                let date = field::<i32>(m, "date"@);
                let payments_provider_user_id = field::<i32>(m, "paymentsProviderUserId"@);
                let invoice = field::<Invoice>(m, "invoice"@);
                let order_info = optional_field::<OrderInfo>(m, "orderInfo"@);
                let shipping_option = optional_field::<ShippingOption>(m, "shippingOption"@);
                let credentials_title = field::<String>(m, "credentialsTitle"@);
                if date is Err {
                    date
                } else if payments_provider_user_id is Err {
                    payments_provider_user_id
                } else if invoice is Err {
                    invoice
                } else if order_info is Err {
                    order_info
                } else if shipping_option is Err {
                    shipping_option
                } else if credentials_title is Err {
                    credentials_title
                } else {
                    Ok(
                        tagged(
                            Map::empty()
                                .insert("date"@, date->Ok_0)
                                .insert("paymentsProviderUserId"@, payments_provider_user_id->Ok_0)
                                .insert("invoice"@, invoice->Ok_0)
                                .insert("orderInfo"@, order_info->Ok_0)
                                .insert("shippingOption"@, shipping_option->Ok_0)
                                .insert("credentialsTitle"@, credentials_title->Ok_0),
                            "paymentReceipt"@,
                        ),
                    )
                }
            },
            _ => Err(Fault::TypeMismatch(at)),
        }
    }

    fn encode(&self) -> (j: Json) {
        proof {
            reveal(<PaymentReceipt as Wire>::wire);
        }
        let mut members: Vec<Member> = Vec::new();
        put(&mut members, "date", self.date.encode());
        put(&mut members, "paymentsProviderUserId", self.payments_provider_user_id.encode());
        put(&mut members, "invoice", self.invoice.encode());
        put(&mut members, "orderInfo", self.order_info.encode());
        put(&mut members, "shippingOption", self.shipping_option.encode());
        put(&mut members, "credentialsTitle", self.credentials_title.encode());
        seal(members, "paymentReceipt")
    }

    fn decode(j: &Json, at: &str) -> (r: Result<Self, DecodeError>) {
        proof {
            reveal(<PaymentReceipt as Wire>::wire);
            reveal(<PaymentReceipt as Wire>::parse);
        }
        let members = members_of(j, at)?;
        let date = read_field::<i32>(members, "date")?;
        let payments_provider_user_id = read_field::<i32>(members, "paymentsProviderUserId")?;
        let invoice = read_field::<Invoice>(members, "invoice")?;
        let order_info = read_optional::<OrderInfo>(members, "orderInfo")?;
        let shipping_option = read_optional::<ShippingOption>(members, "shippingOption")?;
        let credentials_title = read_field::<String>(members, "credentialsTitle")?;
        Ok(PaymentReceipt {
            date,
            payments_provider_user_id,
            invoice,
            order_info,
            shipping_option,
            credentials_title,
        })
    }

    proof fn round_trip(&self, at: Seq<char>) {
        reveal(<PaymentReceipt as Wire>::wire);
        reveal(<PaymentReceipt as Wire>::parse);
        reveal_strlit("@type");
        reveal_strlit("credentialsTitle");
        reveal_strlit("date");
        reveal_strlit("invoice");
        reveal_strlit("orderInfo");
        reveal_strlit("paymentsProviderUserId");
        reveal_strlit("shippingOption");
        assert("@type"@.len() == 5);
        assert("credentialsTitle"@.len() == 16);
        assert("date"@.len() == 4);
        assert("invoice"@.len() == 7);
        assert("orderInfo"@.len() == 9);
        assert("paymentsProviderUserId"@.len() == 22);
        assert("shippingOption"@.len() == 14);
        self.date.round_trip("date"@);
        self.payments_provider_user_id.round_trip("paymentsProviderUserId"@);
        self.invoice.round_trip("invoice"@);
        self.order_info.round_trip("orderInfo"@);
        self.shipping_option.round_trip("shippingOption"@);
        self.credentials_title.round_trip("credentialsTitle"@);
    }
}

impl Tagged for PaymentReceipt {
    open spec fn known(tag: Seq<char>) -> bool {
        tag == "paymentReceipt"@
    }

    fn knows(tag: &str) -> (r: bool) {
        same_text(tag, "paymentReceipt")
    }

    proof fn tag_known(&self) {
        reveal(<PaymentReceipt as Wire>::wire);
        assert(tag_of(self.wire()) == Some("paymentReceipt"@));
        assert(Self::known("paymentReceipt"@));
    }
}

} // verus!
